//! The service-level laws: what holds of every sequence of store
//! operations, proved over the same spec functions the operations'
//! contracts use.

use vstd::prelude::*;
use crate::error::AppError;
use crate::notes::{CreateAbs, NoteAbs, UpdateAbs, CURRENT_USER_ID};
use crate::store::{
    apply_update, contains_id, create_post, delete_post, get_result, index_of_id,
    lemma_create_preserves_wf, lemma_delete_preserves_wf, lemma_unique_index,
    lemma_update_preserves_wf, list_result, new_note, note_with_id, update_post, StoreAbs,
};

verus! {

/// Creating a note and then fetching the identifier it was given yields
/// exactly the created record: the payload's title and content, the fixed
/// owner, and the creation timestamp the store assigned.
pub proof fn created_note_is_retrievable(s: StoreAbs, c: CreateAbs, now: int)
    requires
        s.wf(),
        s.next_id < i64::MAX,
        s.notes.len() > 0 ==> now >= s.notes.last().created_at,
    ensures
        ({
            let n = new_note(s, c, now);
            let s2 = create_post(s, c, now);
            &&& get_result(s2, n.id) == Some(n)
            &&& n.title == c.title
            &&& n.content == c.content
            &&& n.created_at == now
            &&& n.user_id == CURRENT_USER_ID as int
        }),
{
    lemma_create_preserves_wf(s, c, now);
    let n = new_note(s, c, now);
    let s2 = create_post(s, c, now);
    assert(s2.notes[s.notes.len() as int] == n);
    lemma_unique_index(s2, s.notes.len() as int, n.id);
}

/// An identifier no note carries always yields the not-found outcome:
/// get finds nothing, update and delete change nothing, however many
/// notes the store holds; and the not-found error maps to status 404
/// with code `not_found`.
pub proof fn absent_id_is_not_found(s: StoreAbs, id: int, u: UpdateAbs)
    requires
        s.wf(),
        !contains_id(s.notes, id),
    ensures
        get_result(s, id) is None,
        update_post(s, id, u) == s,
        delete_post(s, id) == s,
        AppError::NotFound.spec_status() == 404,
        AppError::NotFound.spec_code() == "not_found"@,
{
}

/// Every listing is ordered by creation time descending: the newest
/// stored notes come first.
pub proof fn list_is_newest_first(s: StoreAbs, limit: Option<i64>, offset: Option<i64>)
    requires
        s.wf(),
    ensures
        forall|i: int, j: int|
            0 <= i < j < list_result(s, limit, offset).len() ==> (#[trigger] list_result(
                s,
                limit,
                offset,
            )[i]).created_at >= (#[trigger] list_result(s, limit, offset)[j]).created_at,
{
    let r = list_result(s, limit, offset);
    let n = s.notes.len() as int;
    assert forall|i: int, j: int| 0 <= i < j < r.len() implies (#[trigger] r[i]).created_at >= (
    #[trigger] r[j]).created_at by {
        let off = crate::notes::spec_effective_offset(offset);
        assert(r[i] == s.notes[n - 1 - off - i]);
        assert(r[j] == s.notes[n - 1 - off - j]);
        assert(s.notes[n - 1 - off - j].created_at <= s.notes[n - 1 - off - i].created_at);
    }
}

/// A listing with no query parameters holds at most 50 notes.
pub proof fn list_default_is_bounded(s: StoreAbs)
    requires
        s.wf(),
    ensures
        list_result(s, None, None).len() <= 50,
{
}

/// The listing limit is clamped: a limit of 500 yields at most 200 notes,
/// and a limit of zero or less yields at most one.
pub proof fn list_limit_is_clamped(s: StoreAbs, offset: Option<i64>)
    requires
        s.wf(),
    ensures
        list_result(s, Some(500i64), offset).len() <= 200,
        forall|l: i64|
            l <= 0 ==> (#[trigger] list_result(s, Some(l), offset)).len() <= 1,
{
}

/// A partial update that supplies only the content replaces the content
/// and keeps every other field: fetching the identifier afterwards yields
/// the old record with the new content.
pub proof fn update_content_only_keeps_title(s: StoreAbs, id: int, c: Seq<char>)
    requires
        s.wf(),
        contains_id(s.notes, id),
    ensures
        ({
            let n0 = note_with_id(s.notes, id);
            let s2 = update_post(s, id, UpdateAbs { title: None, content: Some(c) });
            get_result(s2, id) == Some(
                NoteAbs {
                    id: n0.id,
                    user_id: n0.user_id,
                    title: n0.title,
                    content: Some(c),
                    created_at: n0.created_at,
                },
            )
        }),
{
    let u = UpdateAbs { title: None, content: Some(c) };
    lemma_update_preserves_wf(s, id, u);
    let k = index_of_id(s.notes, id);
    let s2 = update_post(s, id, u);
    assert(s2.notes[k] == apply_update(note_with_id(s.notes, id), u));
    lemma_unique_index(s2, k, id);
}

/// A partial update that supplies no field at all changes nothing: the
/// store is untouched and the record it reports back is the stored one.
pub proof fn update_no_fields_is_noop(s: StoreAbs, id: int)
    requires
        s.wf(),
    ensures
        update_post(s, id, UpdateAbs { title: None, content: None }) == s,
        contains_id(s.notes, id) ==> apply_update(
            note_with_id(s.notes, id),
            UpdateAbs { title: None, content: None },
        ) == note_with_id(s.notes, id),
{
    let u = UpdateAbs { title: None, content: None };
    if contains_id(s.notes, id) {
        let k = index_of_id(s.notes, id);
        assert(apply_update(note_with_id(s.notes, id), u) == s.notes[k]);
        assert(update_post(s, id, u).notes =~= s.notes);
    }
}

/// Deletion is permanent: after a delete no note carries the identifier,
/// and fetching it yields nothing.
pub proof fn delete_is_permanent(s: StoreAbs, id: int)
    requires
        s.wf(),
    ensures
        !contains_id(delete_post(s, id).notes, id),
        get_result(delete_post(s, id), id) is None,
{
    if contains_id(s.notes, id) {
        let k = index_of_id(s.notes, id);
        let s2 = delete_post(s, id);
        if contains_id(s2.notes, id) {
            let j = index_of_id(s2.notes, id);
            assert(0 <= j < s2.notes.len() && s2.notes[j].id == id);
            let j0 = if j < k {
                j
            } else {
                j + 1
            };
            assert(s2.notes[j] == s.notes[j0]);
            lemma_unique_index(s, j0, id);
            lemma_unique_index(s, k, id);
            assert(false);
        }
    }
}

} // verus!
