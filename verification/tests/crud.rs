use notes_service::notes::{CreateNote, ListParams, NoteResponse, UpdateNote};
use notes_service::store::NotesStore;
use notes_service::error::AppError;

fn create_simple(store: &mut NotesStore, title: &str, content: Option<&str>, now: i64) -> NoteResponse {
    store.create(
        CreateNote { title: title.to_string(), content: content.map(|c| c.to_string()) },
        now,
    )
}

#[test]
fn create_then_get_round_trip() {
    let mut store = NotesStore::new();
    let created = create_simple(&mut store, "alpha", Some("beta"), 100);
    assert_eq!(created.id, 1);
    assert_eq!(created.user_id, 1);
    assert_eq!(created.title, "alpha");
    assert_eq!(created.content.as_deref(), Some("beta"));
    assert_eq!(created.created_at, 100);

    let fetched = store.get(created.id as i32).expect("note must exist");
    assert_eq!(fetched, created);
}

#[test]
fn create_without_content() {
    let mut store = NotesStore::new();
    let created = create_simple(&mut store, "bare", None, 5);
    assert_eq!(created.content, None);
    let fetched = store.get(1).expect("note must exist");
    assert_eq!(fetched.content, None);
    assert_eq!(fetched.title, "bare");
}

#[test]
fn title_may_be_empty() {
    let mut store = NotesStore::new();
    let created = create_simple(&mut store, "", None, 1);
    assert_eq!(created.title, "");
    let fetched = store.get(1).expect("note must exist");
    assert_eq!(fetched, created);
}

#[test]
fn missing_id_yields_not_found() {
    let mut store = NotesStore::new();
    assert_eq!(store.get(7), Err(AppError::NotFound));
    assert_eq!(
        store.update(7, UpdateNote { title: None, content: None }),
        Err(AppError::NotFound)
    );
    assert_eq!(store.delete(7), Err(AppError::NotFound));

    // The same holds however many notes the store already has.
    for k in 0..10 {
        create_simple(&mut store, "note", None, k);
    }
    assert_eq!(store.get(999), Err(AppError::NotFound));
    assert_eq!(
        store.update(999, UpdateNote { title: Some("x".to_string()), content: None }),
        Err(AppError::NotFound)
    );
    assert_eq!(store.delete(999), Err(AppError::NotFound));
    assert_eq!(store.list(ListParams { limit: None, offset: None }).len(), 10);
}

#[test]
fn partial_update_replaces_only_supplied_fields() {
    let mut store = NotesStore::new();
    let created = create_simple(&mut store, "A", Some("B"), 50);

    let updated = store
        .update(created.id as i32, UpdateNote { title: None, content: Some("C".to_string()) })
        .expect("note must exist");
    assert_eq!(updated.title, "A");
    assert_eq!(updated.content.as_deref(), Some("C"));
    assert_eq!(updated.id, created.id);
    assert_eq!(updated.created_at, created.created_at);

    let unchanged = store
        .update(created.id as i32, UpdateNote { title: None, content: None })
        .expect("note must exist");
    assert_eq!(unchanged, updated);

    let retitled = store
        .update(created.id as i32, UpdateNote { title: Some("D".to_string()), content: None })
        .expect("note must exist");
    assert_eq!(retitled.title, "D");
    assert_eq!(retitled.content.as_deref(), Some("C"));

    let fetched = store.get(created.id as i32).expect("note must exist");
    assert_eq!(fetched, retitled);
}

#[test]
fn delete_is_permanent() {
    let mut store = NotesStore::new();
    let created = create_simple(&mut store, "gone", Some("soon"), 9);
    let other = create_simple(&mut store, "stays", None, 10);

    let result = store.delete(created.id as i32).expect("note must exist");
    assert!(result.success);
    assert_eq!(result.id, created.id as i32);

    assert_eq!(store.get(created.id as i32), Err(AppError::NotFound));
    assert_eq!(store.delete(created.id as i32), Err(AppError::NotFound));

    // Other notes are untouched, and the freed identifier is not reused.
    assert_eq!(store.get(other.id as i32).expect("note must exist"), other);
    let next = create_simple(&mut store, "fresh", None, 11);
    assert_eq!(next.id, 3);
}

#[test]
fn groceries_scenario() {
    let mut store = NotesStore::new();
    let created = store.create(
        CreateNote {
            title: "Groceries".to_string(),
            content: Some("milk, eggs".to_string()),
        },
        1_700_000_000_000_000,
    );
    assert!(created.id >= 1);
    assert_eq!(created.user_id, 1);
    assert_eq!(created.title, "Groceries");
    assert_eq!(created.content.as_deref(), Some("milk, eggs"));
    assert_eq!(created.created_at, 1_700_000_000_000_000);

    let fetched = store.get(created.id as i32).expect("note must exist");
    assert_eq!(fetched, created);
}

#[test]
fn list_defaults_to_50_newest_first() {
    let mut store = NotesStore::new();
    for k in 0..60 {
        create_simple(&mut store, "note", None, 1000 + k);
    }
    let listed = store.list(ListParams { limit: None, offset: None });
    assert_eq!(listed.len(), 50);
    assert_eq!(listed[0].id, 60);
    assert_eq!(listed[0].created_at, 1059);
    assert_eq!(listed[49].id, 11);
    for w in listed.windows(2) {
        assert!(w[0].created_at >= w[1].created_at);
    }
}

#[test]
fn list_clamps_limit() {
    let mut store = NotesStore::new();
    for k in 0..210 {
        create_simple(&mut store, "note", None, k);
    }
    let wide = store.list(ListParams { limit: Some(500), offset: None });
    assert_eq!(wide.len(), 200);
    let zero = store.list(ListParams { limit: Some(0), offset: None });
    assert_eq!(zero.len(), 1);
    assert_eq!(zero[0].id, 210);
    let negative = store.list(ListParams { limit: Some(-3), offset: None });
    assert_eq!(negative.len(), 1);
}

#[test]
fn list_offset_pages_and_runs_out() {
    let mut store = NotesStore::new();
    for k in 0..5 {
        create_simple(&mut store, "note", None, k);
    }
    let page = store.list(ListParams { limit: Some(2), offset: Some(1) });
    assert_eq!(page.len(), 2);
    assert_eq!(page[0].id, 4);
    assert_eq!(page[1].id, 3);

    let past_end = store.list(ListParams { limit: None, offset: Some(1000) });
    assert!(past_end.is_empty());

    let negative_offset = store.list(ListParams { limit: Some(3), offset: Some(-8) });
    assert_eq!(negative_offset.len(), 3);
    assert_eq!(negative_offset[0].id, 5);

    let empty = NotesStore::new().list(ListParams { limit: None, offset: None });
    assert!(empty.is_empty());
}

#[test]
fn list_with_equal_timestamps_breaks_ties_by_id() {
    let mut store = NotesStore::new();
    for _ in 0..4 {
        create_simple(&mut store, "same moment", None, 77);
    }
    let listed = store.list(ListParams { limit: None, offset: None });
    let ids: Vec<i64> = listed.iter().map(|n| n.id).collect();
    assert_eq!(ids, vec![4, 3, 2, 1]);
}
