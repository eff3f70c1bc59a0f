use krakker::response::{internal_server_error, ErrorResponse, SuccessResponse};

#[test]
fn error_body_and_codes() {
    let e = ErrorResponse::NotFound("User not found".to_string());
    assert_eq!(e.to_json(), r#"{"status": "error", "message": "User not found"}"#);
    assert_eq!(e.status_code(), 404);
    assert_eq!(ErrorResponse::BadRequest(String::new()).status_code(), 400);
    assert_eq!(ErrorResponse::MethodNotAllowed(String::new()).status_code(), 405);
    assert_eq!(ErrorResponse::Unauthorized(String::new()).status_code(), 401);
    assert_eq!(ErrorResponse::InternalServerError(String::new()).status_code(), 500);
}

#[test]
fn internal_error_carries_message() {
    let e = internal_server_error("disk full".to_string());
    assert!(matches!(&e, ErrorResponse::InternalServerError(m) if m == "disk full"));
    assert_eq!(e.message(), "disk full");
}

#[test]
fn success_wraps_data() {
    let s = SuccessResponse::new(5u32);
    assert_eq!(s.status, "success");
    assert_eq!(s.data, 5);
}
