use nonbin::error::{AppError, Backend, Fault};

#[test]
fn status_codes() {
    assert_eq!(AppError::NotFound.status_code(), 404);
    assert_eq!(AppError::InsufficientStorage.status_code(), 507);
    assert_eq!(AppError::MissingFile.status_code(), 400);
    assert_eq!(AppError::MissingFileName.status_code(), 400);
    assert_eq!(AppError::MissingFileContentType.status_code(), 400);
    assert_eq!(AppError::MissingDeleteKey.status_code(), 400);
    assert_eq!(AppError::WrongDeleteKey.status_code(), 401);
    assert_eq!(AppError::Multipart { detail: "x".to_string() }.status_code(), 400);
    assert_eq!(AppError::Http { detail: "x".to_string() }.status_code(), 400);
    assert_eq!(AppError::Database { detail: "x".to_string() }.status_code(), 500);
    assert_eq!(AppError::IO { detail: "x".to_string() }.status_code(), 500);
    assert_eq!(AppError::S3 { detail: "x".to_string() }.status_code(), 500);
    assert_eq!(AppError::ClockSkew.status_code(), 500);
}

#[test]
fn messages() {
    assert_eq!(AppError::NotFound.message(), "not found");
    assert_eq!(AppError::WrongDeleteKey.message(), "wrong delete key");
    assert_eq!(AppError::MissingDeleteKey.message(), "missing delete key");
    assert_eq!(AppError::InsufficientStorage.message(), "insufficient storage");
    assert_eq!(AppError::Database { detail: "boom".to_string() }.message(), "database error");
    assert_eq!(AppError::S3 { detail: "boom".to_string() }.message(), "S3 error");
}

#[test]
fn missing_items_are_not_found() {
    for backend in [Backend::Database, Backend::Filesystem, Backend::ObjectStore] {
        let e = AppError::from_backend(backend, Fault::Missing, "gone".to_string());
        assert!(matches!(e, AppError::NotFound));
    }
}

#[test]
fn full_storage_is_insufficient_storage() {
    let e = AppError::from_backend(Backend::Filesystem, Fault::StorageFull, "full".to_string());
    assert!(matches!(e, AppError::InsufficientStorage));
}

#[test]
fn other_failures_keep_their_backend_and_cause() {
    match AppError::from_backend(Backend::Database, Fault::Other, "db down".to_string()) {
        AppError::Database { detail } => assert_eq!(detail, "db down"),
        e => panic!("unexpected {:?}", e),
    }
    match AppError::from_backend(Backend::Filesystem, Fault::Other, "denied".to_string()) {
        AppError::IO { detail } => assert_eq!(detail, "denied"),
        e => panic!("unexpected {:?}", e),
    }
    match AppError::from_backend(Backend::ObjectStore, Fault::Other, "throttled".to_string()) {
        AppError::S3 { detail } => assert_eq!(detail, "throttled"),
        e => panic!("unexpected {:?}", e),
    }
}
