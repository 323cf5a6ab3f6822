use tatoteco::response::{Body, Response, Status, IMAGE_MAX_AGE_SECS};

#[test]
fn status_codes() {
    assert_eq!(Status::Served.code(), 200);
    assert_eq!(Status::BadRequest.code(), 400);
    assert_eq!(Status::Forbidden.code(), 403);
    assert_eq!(Status::NotFound.code(), 404);
    assert_eq!(Status::PayloadTooLarge.code(), 413);
    assert_eq!(Status::InternalError.code(), 500);
    assert_eq!(Status::Unavailable.code(), 503);
}

#[test]
fn client_errors_are_the_4xx_statuses() {
    assert!(Status::BadRequest.is_client_error());
    assert!(Status::Forbidden.is_client_error());
    assert!(Status::NotFound.is_client_error());
    assert!(Status::PayloadTooLarge.is_client_error());
    assert!(!Status::Served.is_client_error());
    assert!(!Status::InternalError.is_client_error());
    assert!(!Status::Unavailable.is_client_error());
}

#[test]
fn failure_has_no_payload() {
    let response = Response::failure(Status::NotFound);
    assert_eq!(response.status, Status::NotFound);
    assert_eq!(response.body, Body::Empty);
    assert_eq!(response.max_age, None);
    assert_eq!(response.content_type(), None);
}

#[test]
fn acknowledgement_says_ok() {
    let response = Response::acknowledged();
    assert_eq!(response.status, Status::Served);
    assert_eq!(response.body, Body::Text("OK".to_string()));
    assert_eq!(response.max_age, None);
    assert_eq!(response.content_type(), Some("text/plain; charset=utf-8"));
}

#[test]
fn page_is_html() {
    let response = Response::page("<p>hi</p>".to_string());
    assert_eq!(response.status, Status::Served);
    assert_eq!(response.body, Body::Html("<p>hi</p>".to_string()));
    assert_eq!(response.max_age, None);
    assert_eq!(response.content_type(), Some("text/html; charset=utf-8"));
}

#[test]
fn image_is_png_and_cacheable_for_a_day() {
    let response = Response::image(vec![0x89, 0x50, 0x4e, 0x47]);
    assert_eq!(response.status, Status::Served);
    assert_eq!(response.body, Body::Png(vec![0x89, 0x50, 0x4e, 0x47]));
    assert_eq!(response.max_age, Some(86_400));
    assert_eq!(IMAGE_MAX_AGE_SECS, 24 * 60 * 60);
    assert_eq!(response.content_type(), Some("image/png"));
}
