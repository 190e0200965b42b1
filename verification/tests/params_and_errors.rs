use notes_service::error::{AppError, DbErrorKind};
use notes_service::notes::{effective_limit, effective_offset};

#[test]
fn limit_defaults_and_clamps() {
    assert_eq!(effective_limit(None), 50);
    assert_eq!(effective_limit(Some(1)), 1);
    assert_eq!(effective_limit(Some(200)), 200);
    assert_eq!(effective_limit(Some(77)), 77);
    assert_eq!(effective_limit(Some(0)), 1);
    assert_eq!(effective_limit(Some(-42)), 1);
    assert_eq!(effective_limit(Some(201)), 200);
    assert_eq!(effective_limit(Some(i64::MAX)), 200);
    assert_eq!(effective_limit(Some(i64::MIN)), 1);
}

#[test]
fn offset_defaults_and_floors() {
    assert_eq!(effective_offset(None), 0);
    assert_eq!(effective_offset(Some(0)), 0);
    assert_eq!(effective_offset(Some(12)), 12);
    assert_eq!(effective_offset(Some(-1)), 0);
    assert_eq!(effective_offset(Some(i64::MIN)), 0);
    assert_eq!(effective_offset(Some(i64::MAX)), i64::MAX);
}

#[test]
fn not_found_maps_to_404() {
    let (status, code, message) = AppError::NotFound.into_response();
    assert_eq!(status, 404);
    assert_eq!(code, "not_found");
    assert_eq!(message, "resource not found");
}

#[test]
fn row_not_found_from_database_maps_to_404() {
    let (status, code, message) = AppError::Db(DbErrorKind::RowNotFound).into_response();
    assert_eq!(status, 404);
    assert_eq!(code, "not_found");
    assert_eq!(message, "resource not found");
}

#[test]
fn database_failure_maps_to_500_without_detail() {
    let (status, code, message) = AppError::Db(DbErrorKind::Other).into_response();
    assert_eq!(status, 500);
    assert_eq!(code, "db_error");
    assert_eq!(message, "database error");
}

#[test]
fn internal_failure_maps_to_500_without_detail() {
    let (status, code, message) = AppError::Internal.into_response();
    assert_eq!(status, 500);
    assert_eq!(code, "internal");
    assert_eq!(message, "internal server error");
}
