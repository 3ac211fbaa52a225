use eve_server::response::{ErrorKind, ErrorResponse, StatusCode, SuccessResponse};

#[test]
fn status_codes_are_the_http_numbers() {
    assert_eq!(StatusCode::Success.as_u16(), 200);
    assert_eq!(StatusCode::BadRequest.as_u16(), 400);
    assert_eq!(StatusCode::Unauthorized.as_u16(), 401);
    assert_eq!(StatusCode::NotFound.as_u16(), 404);
    assert_eq!(StatusCode::InternalServerError.as_u16(), 500);
}

#[test]
fn each_failing_status_has_its_kind() {
    assert_eq!(StatusCode::Success.error_kind(), None);
    assert_eq!(StatusCode::BadRequest.error_kind(), Some(ErrorKind::ValidationError));
    assert_eq!(StatusCode::Unauthorized.error_kind(), Some(ErrorKind::Unauthorized));
    assert_eq!(StatusCode::NotFound.error_kind(), Some(ErrorKind::NotFound));
    assert_eq!(
        StatusCode::InternalServerError.error_kind(),
        Some(ErrorKind::PersistenceError)
    );
}

#[test]
fn error_response_carries_status_and_message() {
    let response = ErrorResponse::from(StatusCode::NotFound, "The todo does not exist.");
    assert_eq!(response.status_code, StatusCode::NotFound);
    assert!(!response.body.success);
    assert_eq!(response.body.message, "The todo does not exist.");
    assert_eq!(response.kind(), Some(ErrorKind::NotFound));
}

#[test]
fn success_response_wraps_its_payload() {
    let response = SuccessResponse::from(41);
    assert!(response.success);
    assert_eq!(response.data, 41);
    let text: SuccessResponse<String> = String::from("done").into();
    assert!(text.success);
    assert_eq!(text.data, "done");
}
