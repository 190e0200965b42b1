//! The verified model of the notes storage: what each of the five CRUD
//! operations does to the set of stored rows. The store keeps its notes in
//! insertion order; identifiers are assigned by a strictly increasing
//! counter and creation timestamps never decrease, so the newest note is
//! always at the back.

use vstd::prelude::*;
use vstd::pervasive::VecAdditionalExecFns;
use crate::error::{AppError, AppResult};
use crate::notes::{
    CreateAbs, CreateNote, DeleteResult, ListParams, NoteAbs, NoteResponse, UpdateAbs, UpdateNote,
    CURRENT_USER_ID, effective_limit, effective_offset, spec_effective_limit,
    spec_effective_offset, views_of,
};

verus! {

/// Mathematical view of the whole store: the stored notes in insertion
/// order, and the identifier the next created note will receive.
pub ghost struct StoreAbs {
    pub notes: Seq<NoteAbs>,
    pub next_id: int,
}

impl StoreAbs {
    /// Well-formedness: identifiers are positive, strictly increasing in
    /// insertion order and below the counter, and creation timestamps
    /// never decrease in insertion order.
    pub open spec fn wf(self) -> bool {
        &&& 1 <= self.next_id <= i64::MAX
        &&& forall|i: int|
            0 <= i < self.notes.len() ==> 1 <= (#[trigger] self.notes[i]).id < self.next_id
        &&& forall|i: int, j: int|
            0 <= i < j < self.notes.len() ==> (#[trigger] self.notes[i]).id < (
            #[trigger] self.notes[j]).id
        &&& forall|i: int, j: int|
            0 <= i < j < self.notes.len() ==> (#[trigger] self.notes[i]).created_at <= (
            #[trigger] self.notes[j]).created_at
    }
}

/// Whether some stored note carries the given identifier.
pub open spec fn contains_id(notes: Seq<NoteAbs>, id: int) -> bool {
    exists|i: int| 0 <= i < notes.len() && (#[trigger] notes[i]).id == id
}

/// The position of the note with the given identifier, where one exists.
pub open spec fn index_of_id(notes: Seq<NoteAbs>, id: int) -> int {
    choose|i: int| 0 <= i < notes.len() && (#[trigger] notes[i]).id == id
}

/// The note with the given identifier, where one exists.
pub open spec fn note_with_id(notes: Seq<NoteAbs>, id: int) -> NoteAbs {
    notes[index_of_id(notes, id)]
}

/// The note a create operation builds: the counter as identifier, the
/// fixed owner, the payload's fields, and the given timestamp.
pub open spec fn new_note(s: StoreAbs, c: CreateAbs, now: int) -> NoteAbs {
    NoteAbs {
        id: s.next_id,
        user_id: CURRENT_USER_ID as int,
        title: c.title,
        content: c.content,
        created_at: now,
    }
}

/// The store after a create: the new note appended, the counter advanced.
pub open spec fn create_post(s: StoreAbs, c: CreateAbs, now: int) -> StoreAbs {
    StoreAbs { notes: s.notes.push(new_note(s, c, now)), next_id: s.next_id + 1 }
}

/// What a listing returns: the stored notes newest first, the normalised
/// offset skipped, at most the normalised limit taken. An offset past the
/// end yields an empty listing.
pub open spec fn list_result(s: StoreAbs, limit: Option<i64>, offset: Option<i64>) -> Seq<NoteAbs> {
    let lim = spec_effective_limit(limit);
    let off = spec_effective_offset(offset);
    let rev = s.notes.reverse();
    let start = if off > rev.len() {
        rev.len() as int
    } else {
        off
    };
    let end = if off + lim > rev.len() {
        rev.len() as int
    } else {
        off + lim
    };
    rev.subrange(start, end)
}

/// What a get returns: the note with the given identifier, or nothing.
pub open spec fn get_result(s: StoreAbs, id: int) -> Option<NoteAbs> {
    if contains_id(s.notes, id) {
        Some(note_with_id(s.notes, id))
    } else {
        None
    }
}

/// A note after a partial update: each supplied field replaces the stored
/// one, each omitted field is left unchanged; identifier, owner and
/// creation timestamp never change.
pub open spec fn apply_update(n: NoteAbs, u: UpdateAbs) -> NoteAbs {
    NoteAbs {
        id: n.id,
        user_id: n.user_id,
        title: match u.title {
            Some(t) => t,
            None => n.title,
        },
        content: match u.content {
            Some(c) => Some(c),
            None => n.content,
        },
        created_at: n.created_at,
    }
}

/// The store after an update: the addressed note replaced in place where
/// it exists, everything unchanged where it does not.
pub open spec fn update_post(s: StoreAbs, id: int, u: UpdateAbs) -> StoreAbs {
    if contains_id(s.notes, id) {
        StoreAbs {
            notes: s.notes.update(
                index_of_id(s.notes, id),
                apply_update(note_with_id(s.notes, id), u),
            ),
            next_id: s.next_id,
        }
    } else {
        s
    }
}

/// The store after a delete: the addressed note removed where it exists,
/// everything unchanged where it does not.
pub open spec fn delete_post(s: StoreAbs, id: int) -> StoreAbs {
    if contains_id(s.notes, id) {
        StoreAbs { notes: s.notes.remove(index_of_id(s.notes, id)), next_id: s.next_id }
    } else {
        s
    }
}

/// In a well-formed store the identifier determines the position: any
/// position holding the identifier is the one `index_of_id` names.
pub proof fn lemma_unique_index(s: StoreAbs, i: int, id: int)
    requires
        s.wf(),
        0 <= i < s.notes.len(),
        s.notes[i].id == id,
    ensures
        contains_id(s.notes, id),
        index_of_id(s.notes, id) == i,
        note_with_id(s.notes, id) == s.notes[i],
{
    assert(contains_id(s.notes, id));
    let j = index_of_id(s.notes, id);
    if j < i {
        assert(s.notes[j].id < s.notes[i].id);
    } else if i < j {
        assert(s.notes[i].id < s.notes[j].id);
    }
}

/// Creating preserves well-formedness.
pub proof fn lemma_create_preserves_wf(s: StoreAbs, c: CreateAbs, now: int)
    requires
        s.wf(),
        s.next_id < i64::MAX,
        s.notes.len() > 0 ==> now >= s.notes.last().created_at,
    ensures
        create_post(s, c, now).wf(),
{
    let s2 = create_post(s, c, now);
    assert forall|i: int, j: int| 0 <= i < j < s2.notes.len() implies (#[trigger] s2.notes[i]).id
        < (#[trigger] s2.notes[j]).id by {
        if j < s.notes.len() as int {
        } else {
            assert(s2.notes[j] == new_note(s, c, now));
        }
    }
    assert forall|i: int, j: int|
        0 <= i < j < s2.notes.len() implies (#[trigger] s2.notes[i]).created_at <= (
    #[trigger] s2.notes[j]).created_at by {
        if j < s.notes.len() as int {
        } else {
            assert(s.notes[i].created_at <= s.notes.last().created_at);
        }
    }
}

/// Updating preserves well-formedness: identifiers and timestamps are
/// untouched.
pub proof fn lemma_update_preserves_wf(s: StoreAbs, id: int, u: UpdateAbs)
    requires
        s.wf(),
    ensures
        update_post(s, id, u).wf(),
{
    if contains_id(s.notes, id) {
        let k = index_of_id(s.notes, id);
        let s2 = update_post(s, id, u);
        assert(0 <= k < s.notes.len());
        assert forall|i: int| 0 <= i < s2.notes.len() implies 1 <= (#[trigger] s2.notes[i]).id
            < s2.next_id by {
            assert(1 <= s.notes[i].id < s.next_id);
        }
        assert forall|i: int, j: int| 0 <= i < j < s2.notes.len() implies (
        #[trigger] s2.notes[i]).id < (#[trigger] s2.notes[j]).id by {
            assert(s.notes[i].id < s.notes[j].id);
        }
        assert forall|i: int, j: int|
            0 <= i < j < s2.notes.len() implies (#[trigger] s2.notes[i]).created_at <= (
        #[trigger] s2.notes[j]).created_at by {
            assert(s.notes[i].created_at <= s.notes[j].created_at);
        }
    }
}

/// Deleting preserves well-formedness: the remaining notes keep their
/// relative order.
pub proof fn lemma_delete_preserves_wf(s: StoreAbs, id: int)
    requires
        s.wf(),
    ensures
        delete_post(s, id).wf(),
{
    if contains_id(s.notes, id) {
        let k = index_of_id(s.notes, id);
        let s2 = delete_post(s, id);
        assert(0 <= k < s.notes.len());
        assert forall|i: int| 0 <= i < s2.notes.len() implies 1 <= (#[trigger] s2.notes[i]).id
            < s2.next_id by {
            if i < k {
                assert(s2.notes[i] == s.notes[i]);
            } else {
                assert(s2.notes[i] == s.notes[i + 1]);
            }
        }
        assert forall|i: int, j: int| 0 <= i < j < s2.notes.len() implies (
        #[trigger] s2.notes[i]).id < (#[trigger] s2.notes[j]).id by {
            let i0 = if i < k { i } else { i + 1 };
            let j0 = if j < k { j } else { j + 1 };
            assert(s2.notes[i] == s.notes[i0]);
            assert(s2.notes[j] == s.notes[j0]);
            assert(s.notes[i0].id < s.notes[j0].id);
        }
        assert forall|i: int, j: int|
            0 <= i < j < s2.notes.len() implies (#[trigger] s2.notes[i]).created_at <= (
        #[trigger] s2.notes[j]).created_at by {
            let i0 = if i < k { i } else { i + 1 };
            let j0 = if j < k { j } else { j + 1 };
            assert(s2.notes[i] == s.notes[i0]);
            assert(s2.notes[j] == s.notes[j0]);
            assert(s.notes[i0].created_at <= s.notes[j0].created_at);
        }
    }
}

/// The notes store: the rows in insertion order and the counter the next
/// created note draws its identifier from.
pub struct NotesStore {
    notes: Vec<NoteResponse>,
    next_id: i64,
}

impl View for NotesStore {
    type V = StoreAbs;

    closed spec fn view(&self) -> StoreAbs {
        StoreAbs { notes: views_of(self.notes@), next_id: self.next_id as int }
    }
}

/// Builds an optional string equal to the given one.
fn clone_content(c: &Option<String>) -> (r: Option<String>)
    ensures
        r == *c,
{
    match c {
        Some(s) => Some(s.clone()),
        None => None,
    }
}

/// Builds a note record equal to the given one, field by field.
fn clone_note(n: &NoteResponse) -> (r: NoteResponse)
    ensures
        r == *n,
{
    NoteResponse {
        id: n.id,
        user_id: n.user_id,
        title: n.title.clone(),
        content: clone_content(&n.content),
        created_at: n.created_at,
    }
}

impl NotesStore {
    /// An empty store; the first created note receives identifier 1.
    pub fn new() -> (r: NotesStore)
        ensures
            r@.notes =~= Seq::<NoteAbs>::empty(),
            r@.next_id == 1,
            r@.wf(),
    {
        NotesStore { notes: Vec::new(), next_id: 1 }
    }

    /// Inserts a new note built from the payload: the store assigns the
    /// identifier and stamps the fixed owner and the given creation time;
    /// the fully populated record is returned.
    pub fn create(&mut self, payload: CreateNote, now: i64) -> (r: NoteResponse)
        requires
            old(self)@.wf(),
            old(self)@.next_id < i64::MAX,
            old(self)@.notes.len() > 0 ==> now as int >= old(self)@.notes.last().created_at,
        ensures
            r@ == new_note(old(self)@, payload@, now as int),
            final(self)@ == create_post(old(self)@, payload@, now as int),
            final(self)@.wf(),
    {
        proof {
            lemma_create_preserves_wf(self@, payload@, now as int);
        }
        let ghost s0 = self@;
        let note = NoteResponse {
            id: self.next_id,
            user_id: CURRENT_USER_ID,
            title: payload.title,
            content: payload.content,
            created_at: now,
        };
        let r = clone_note(&note);
        self.notes.push(note);
        self.next_id = self.next_id + 1;
        proof {
            assert(self@.notes =~= s0.notes.push(r@));
        }
        r
    }

    /// The position of the note with the given identifier, or the length
    /// of the store where no note carries it.
    fn find(&self, id: i32) -> (r: usize)
        requires
            self@.wf(),
        ensures
            r <= self@.notes.len(),
            r < self@.notes.len() ==> contains_id(self@.notes, id as int) && index_of_id(
                self@.notes,
                id as int,
            ) == r as int,
            r == self@.notes.len() ==> !contains_id(self@.notes, id as int),
    {
        let n = self.notes.len();
        let mut i: usize = 0;
        while i < n
            invariant
                self@.wf(),
                n == self@.notes.len(),
                0 <= i <= n,
                forall|k: int| 0 <= k < i ==> (#[trigger] self@.notes[k]).id != id as int,
            decreases n - i,
        {
            if self.notes[i].id == id as i64 {
                proof {
                    lemma_unique_index(self@, i as int, id as int);
                }
                return i;
            }
            i = i + 1;
        }
        i
    }

    /// Lists notes newest first: the normalised offset is skipped and at
    /// most the normalised limit is returned.
    pub fn list(&self, p: ListParams) -> (r: Vec<NoteResponse>)
        requires
            self@.wf(),
        ensures
            views_of(r@) == list_result(self@, p.limit, p.offset),
    {
        let lim = effective_limit(p.limit);
        let off = effective_offset(p.offset);
        let n = self.notes.len();
        let mut out: Vec<NoteResponse> = Vec::new();
        let mut k: usize = 0;
        while k < lim as usize && (off as u64) + (k as u64) < (n as u64)
            invariant
                self@.wf(),
                n == self@.notes.len(),
                1 <= lim <= 200,
                lim as int == spec_effective_limit(p.limit),
                off >= 0,
                off as int == spec_effective_offset(p.offset),
                k <= lim as usize,
                out@.len() == k,
                k > 0 ==> off as int + k as int <= n as int,
                forall|m: int|
                    0 <= m < k ==> (#[trigger] out@[m])@ == self@.notes[n - 1 - off - m],
            decreases lim - k,
        {
            let idx: usize = n - 1 - (off as usize) - k;
            out.push(clone_note(&self.notes[idx]));
            k = k + 1;
        }
        proof {
            assert(views_of(out@) =~= list_result(self@, p.limit, p.offset));
        }
        out
    }

    /// Fetches the note with the given identifier; yields the not-found
    /// error exactly when no note carries it.
    pub fn get(&self, id: i32) -> (r: AppResult<NoteResponse>)
        requires
            self@.wf(),
        ensures
            match r {
                Ok(n) => get_result(self@, id as int) == Some(n@),
                Err(e) => get_result(self@, id as int) is None && e == AppError::NotFound,
            },
    {
        let i = self.find(id);
        if i < self.notes.len() {
            Ok(clone_note(&self.notes[i]))
        } else {
            Err(AppError::NotFound)
        }
    }

    /// Partially updates the note with the given identifier: a supplied
    /// title or content replaces the stored one, an omitted field stays;
    /// the updated record is returned. Yields the not-found error, and
    /// leaves the store untouched, exactly when no note carries the
    /// identifier.
    pub fn update(&mut self, id: i32, body: UpdateNote) -> (r: AppResult<NoteResponse>)
        requires
            old(self)@.wf(),
        ensures
            final(self)@ == update_post(old(self)@, id as int, body@),
            final(self)@.wf(),
            match r {
                Ok(n) => contains_id(old(self)@.notes, id as int) && n@ == apply_update(
                    note_with_id(old(self)@.notes, id as int),
                    body@,
                ),
                Err(e) => !contains_id(old(self)@.notes, id as int) && e == AppError::NotFound,
            },
    {
        proof {
            lemma_update_preserves_wf(self@, id as int, body@);
        }
        let ghost s0 = self@;
        let i = self.find(id);
        if i < self.notes.len() {
            let current = &self.notes[i];
            let new_title = match body.title {
                Some(t) => t,
                None => current.title.clone(),
            };
            let new_content = match body.content {
                Some(c) => Some(c),
                None => clone_content(&current.content),
            };
            let updated = NoteResponse {
                id: current.id,
                user_id: current.user_id,
                title: new_title,
                content: new_content,
                created_at: current.created_at,
            };
            let r = clone_note(&updated);
            self.notes.set(i, updated);
            proof {
                assert(self@.notes =~= update_post(s0, id as int, body@).notes);
            }
            Ok(r)
        } else {
            Err(AppError::NotFound)
        }
    }

    /// Removes the note with the given identifier permanently and reports
    /// the removed identifier. Yields the not-found error, and leaves the
    /// store untouched, exactly when no note carries the identifier.
    pub fn delete(&mut self, id: i32) -> (r: AppResult<DeleteResult>)
        requires
            old(self)@.wf(),
        ensures
            final(self)@ == delete_post(old(self)@, id as int),
            final(self)@.wf(),
            match r {
                Ok(d) => contains_id(old(self)@.notes, id as int) && d == (DeleteResult {
                    success: true,
                    id,
                }),
                Err(e) => !contains_id(old(self)@.notes, id as int) && e == AppError::NotFound,
            },
    {
        proof {
            lemma_delete_preserves_wf(self@, id as int);
        }
        let ghost s0 = self@;
        let i = self.find(id);
        if i < self.notes.len() {
            let _removed = self.notes.remove(i);
            proof {
                assert(self@.notes =~= delete_post(s0, id as int).notes);
            }
            Ok(DeleteResult { success: true, id })
        } else {
            Err(AppError::NotFound)
        }
    }
}

} // verus!
