use xjbutil::http_commons::{http_code_describe, HttpResponse};

#[test]
fn http_code_describe_values() {
    assert_eq!(http_code_describe(100), "Continue");
    assert_eq!(http_code_describe(200), "OK");
    assert_eq!(http_code_describe(301), "Moved Permanently");
    assert_eq!(http_code_describe(404), "Not Found");
    assert_eq!(http_code_describe(500), "Internal Server Error");
    assert_eq!(http_code_describe(42), "Unknown");
    assert_eq!(http_code_describe(306), "Unknown");
}

#[test]
fn has_header_ignores_ascii_case() {
    let mut response = HttpResponse::new(200, Vec::new(), None);
    assert!(!response.has_header("Content-Type"));

    response.add_header("Content-Type", "text/plain");
    assert!(response.has_header("Content-Type"));
    assert!(response.has_header("content-type"));
    assert!(response.has_header("CONTENT-TYPE"));
    assert!(!response.has_header("Content-Length"));
    assert!(!response.has_header("Content-Typ"));
}

#[test]
fn builder_builds_response() {
    let response = HttpResponse::builder()
        .set_code(404)
        .add_header("Content-Type".to_string(), "text/html".to_string())
        .set_payload("gone fishing".to_string())
        .build();
    assert_eq!(response.code, 404);
    assert_eq!(response.headers.len(), 1);
    assert_eq!(response.headers[0].0, "Content-Type");
    assert_eq!(response.headers[0].1, "text/html");
    assert_eq!(response.payload, Some("gone fishing".to_string()));
}

#[test]
fn builder_defaults_to_200_and_empty() {
    let response = HttpResponse::builder().build();
    assert_eq!(response.code, 200);
    assert!(response.headers.is_empty());
    assert_eq!(response.payload, None);
}
