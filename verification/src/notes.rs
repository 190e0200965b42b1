//! The note record and the request payloads of the five CRUD operations,
//! together with their mathematical views and the normalisation of the
//! list-query parameters.

use vstd::prelude::*;

verus! {

/// The owner attached to every created note. No identity subsystem exists,
/// so the service stamps each note with this fixed user.
pub const CURRENT_USER_ID: i32 = 1;

/// Default number of notes a listing returns when no limit is given.
pub const DEFAULT_LIMIT: i64 = 50;

/// Smallest accepted listing limit; lower requests are clamped up to it.
pub const MIN_LIMIT: i64 = 1;

/// Largest accepted listing limit; higher requests are clamped down to it.
pub const MAX_LIMIT: i64 = 200;

/// Mathematical view of a note: strings as character sequences, the
/// creation timestamp as an integer (microseconds since the epoch).
pub ghost struct NoteAbs {
    pub id: int,
    pub user_id: int,
    pub title: Seq<char>,
    pub content: Option<Seq<char>>,
    pub created_at: int,
}

/// A note exactly as the storage layer returns it: the generated `id`,
/// the owner, the caller-supplied `title` and optional `content`, and the
/// insertion timestamp in microseconds since the epoch.
#[derive(Debug, PartialEq, Eq)]
pub struct NoteResponse {
    pub id: i64,
    pub user_id: i32,
    pub title: String,
    pub content: Option<String>,
    pub created_at: i64,
}

impl View for NoteResponse {
    type V = NoteAbs;

    open spec fn view(&self) -> NoteAbs {
        NoteAbs {
            id: self.id as int,
            user_id: self.user_id as int,
            title: self.title@,
            content: opt_view(self.content),
            created_at: self.created_at as int,
        }
    }
}

/// View of an optional string as an optional character sequence.
pub open spec fn opt_view(o: Option<String>) -> Option<Seq<char>> {
    match o {
        Some(s) => Some(s@),
        None => None,
    }
}

/// Views of a whole sequence of note records.
pub open spec fn views_of(s: Seq<NoteResponse>) -> Seq<NoteAbs> {
    s.map_values(|n: NoteResponse| n@)
}

/// Payload of the create operation: a required title and optional content.
pub struct CreateNote {
    pub title: String,
    pub content: Option<String>,
}

/// Mathematical view of a create payload.
pub ghost struct CreateAbs {
    pub title: Seq<char>,
    pub content: Option<Seq<char>>,
}

impl View for CreateNote {
    type V = CreateAbs;

    open spec fn view(&self) -> CreateAbs {
        CreateAbs { title: self.title@, content: opt_view(self.content) }
    }
}

/// Payload of the partial update operation: each supplied field replaces
/// the stored one, each omitted field is left unchanged.
pub struct UpdateNote {
    pub title: Option<String>,
    pub content: Option<String>,
}

/// Mathematical view of an update payload.
pub ghost struct UpdateAbs {
    pub title: Option<Seq<char>>,
    pub content: Option<Seq<char>>,
}

impl View for UpdateNote {
    type V = UpdateAbs;

    open spec fn view(&self) -> UpdateAbs {
        UpdateAbs { title: opt_view(self.title), content: opt_view(self.content) }
    }
}

/// Query parameters of the list operation, both optional.
pub struct ListParams {
    pub limit: Option<i64>,
    pub offset: Option<i64>,
}

/// Result of a successful delete: the removed identifier.
#[derive(Debug, PartialEq, Eq)]
pub struct DeleteResult {
    pub success: bool,
    pub id: i32,
}

/// The limit a listing actually uses: the given value, defaulting to 50,
/// clamped to the inclusive range [1, 200].
pub open spec fn spec_effective_limit(limit: Option<i64>) -> int {
    let l = match limit {
        Some(v) => v as int,
        None => DEFAULT_LIMIT as int,
    };
    if l < MIN_LIMIT as int {
        MIN_LIMIT as int
    } else if l > MAX_LIMIT as int {
        MAX_LIMIT as int
    } else {
        l
    }
}

/// The offset a listing actually uses: the given value, defaulting to 0,
/// with negative values raised to 0. There is no upper bound.
pub open spec fn spec_effective_offset(offset: Option<i64>) -> int {
    let o = match offset {
        Some(v) => v as int,
        None => 0,
    };
    if o < 0 {
        0
    } else {
        o
    }
}

/// Normalises a requested listing limit.
pub fn effective_limit(limit: Option<i64>) -> (r: i64)
    ensures
        r as int == spec_effective_limit(limit),
        MIN_LIMIT <= r <= MAX_LIMIT,
{
    let l: i64 = match limit {
        Some(v) => v,
        None => DEFAULT_LIMIT,
    };
    if l < MIN_LIMIT {
        MIN_LIMIT
    } else if l > MAX_LIMIT {
        MAX_LIMIT
    } else {
        l
    }
}

/// Normalises a requested listing offset.
pub fn effective_offset(offset: Option<i64>) -> (r: i64)
    ensures
        r as int == spec_effective_offset(offset),
        r >= 0,
{
    let o: i64 = match offset {
        Some(v) => v,
        None => 0,
    };
    if o < 0 {
        0
    } else {
        o
    }
}

} // verus!
