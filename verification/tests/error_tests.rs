//! The error taxonomy: each constructor's status code and message.
use kv_service::kv_store::kv_error::KVError;

#[test]
fn forbidden_maps_to_403() {
    let err = KVError::forbidden();
    assert_eq!(err.status_code(), 403);
    assert_eq!(err.message(), "Operation not allowed");
}

#[test]
fn not_found_maps_to_404() {
    let err = KVError::not_found();
    assert_eq!(err.status_code(), 404);
    assert_eq!(err.message(), "Key not found");
}

#[test]
fn impossible_operation_maps_to_500() {
    let err = KVError::impossible_operation();
    assert_eq!(err.status_code(), 500);
    assert_eq!(err.message(), "Not possible to insert value");
}

#[test]
fn unavailable_maps_to_500() {
    let err = KVError::unavailable();
    assert_eq!(err.status_code(), 500);
    assert_eq!(err.message(), "Database not reachable");
}

#[test]
fn decoder_error_maps_to_400() {
    let decode_err = image::load_from_memory(b"definitely not an image").unwrap_err();
    let err = KVError::from(decode_err);
    assert_eq!(err.status_code(), 400);
    assert_eq!(err.message(), "Image not loadable");
}
