use bible_api::error::{AppError, DbErrorKind};

#[test]
fn status_codes() {
    assert_eq!(AppError::NotFound.status_code(), 404);
    assert_eq!(AppError::InternalServerError.status_code(), 500);
}

#[test]
fn messages() {
    assert_eq!(
        AppError::NotFound.message(),
        "The requested resource was not found in the database"
    );
    assert_eq!(AppError::InternalServerError.message(), "Internal Server Error");
}

#[test]
fn db_error_kinds() {
    assert_eq!(AppError::from_db_error_kind(DbErrorKind::RowNotFound), AppError::NotFound);
    assert_eq!(AppError::from_db_error_kind(DbErrorKind::ColumnNotFound), AppError::NotFound);
    assert_eq!(AppError::from_db_error_kind(DbErrorKind::Other), AppError::InternalServerError);
}
