use price_tracker::discord::TaskNotification;
use price_tracker::error::{
    AppError, ErrorKind, ScrapeError, ValidationErrors, STATUS_BAD_REQUEST,
    STATUS_INTERNAL_SERVER_ERROR,
};
use price_tracker::routers::HttpResponse;

#[test]
fn server_error_text_and_status() {
    let e = AppError::server("database is gone");
    assert_eq!(e.to_string(), "internal server error database is gone");
    assert_eq!(e.status_code(), 500);
    assert_eq!(STATUS_INTERNAL_SERVER_ERROR, 500);
}

#[test]
fn validation_error_text_and_status() {
    let mut errors = ValidationErrors::new();
    assert!(errors.is_empty());
    errors.add("name", "length", "name must not be empty");
    assert!(!errors.is_empty());
    assert_eq!(errors.errors.len(), 1);
    assert_eq!(errors.errors[0].field, "name");
    assert_eq!(errors.errors[0].code, "length");
    assert_eq!(errors.errors[0].message, "name must not be empty");
    let e = AppError::ValidationError(errors);
    assert_eq!(e.to_string(), "invalid payload");
    assert_eq!(e.status_code(), 400);
    assert_eq!(STATUS_BAD_REQUEST, 400);
}

#[test]
fn validation_errors_keep_their_order() {
    let mut errors = ValidationErrors::new();
    errors.add("url", "url", "first");
    errors.add("name", "length", "second");
    let fields: Vec<&str> = errors.errors.iter().map(|e| e.field.as_str()).collect();
    assert_eq!(fields, vec!["url", "name"]);
}

#[test]
fn scrape_error_from_app_error() {
    let e = ScrapeError::from_app(&AppError::server("x"));
    assert_eq!(e.kind, ErrorKind::Storage);
    assert_eq!(e.message, "internal server error x");
    let e = ScrapeError::from_app(&AppError::ValidationError(ValidationErrors::new()));
    assert_eq!(e.kind, ErrorKind::Validation);
    assert_eq!(e.message, "invalid payload");
}

#[test]
fn scrape_error_new_and_clone() {
    let e = ScrapeError::new(ErrorKind::Timeout, "selector did not appear");
    let copy = e.clone();
    assert_eq!(copy.kind, ErrorKind::Timeout);
    assert_eq!(copy.message, "selector did not appear");
}

#[test]
fn http_response_envelopes() {
    let r = HttpResponse::ok(7u8);
    assert_eq!((r.status, r.ok, r.body), (200, true, 7));
    let r = HttpResponse::created("row");
    assert_eq!((r.status, r.ok, r.body), (201, true, "row"));
    let r = HttpResponse::new(false, (), 404);
    assert_eq!((r.status, r.ok), (404, false));
}

#[test]
fn notification_of_a_failure() {
    let n = TaskNotification::failure(42, &ScrapeError::new(ErrorKind::Fetch, "status 503"));
    assert_eq!(n.channel, 42);
    assert_eq!(n.message, "fetch error: status 503");
    let n = TaskNotification::failure(1, &ScrapeError::new(ErrorKind::Render, "r"));
    assert_eq!(n.message, "render error: r");
    let n = TaskNotification::failure(1, &ScrapeError::new(ErrorKind::Timeout, "t"));
    assert_eq!(n.message, "timeout: t");
    let n = TaskNotification::failure(1, &ScrapeError::new(ErrorKind::Storage, "s"));
    assert_eq!(n.message, "storage error: s");
    let n = TaskNotification::failure(1, &ScrapeError::new(ErrorKind::Validation, "v"));
    assert_eq!(n.message, "validation error: v");
    let n = TaskNotification::new(9, "hello".to_string());
    assert_eq!((n.channel, n.message.as_str()), (9, "hello"));
}
