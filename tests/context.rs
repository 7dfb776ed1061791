use api_template::context::{add_context_to_request, request_id_from_headers, Context};
use api_template::message::{Header, Request};

fn empty_request() -> Request {
    Request::new("GET".to_string(), "/health".to_string())
}

fn resolved_id(req: &Request) -> String {
    req.context.as_ref().unwrap().get_request_id()
}

fn is_v4_text(s: &str) -> bool {
    match uuid::Uuid::parse_str(s) {
        Ok(u) => u.get_version_num() == 4 && u.to_string() == s,
        Err(_) => false,
    }
}

#[test]
fn adds_context_with_request_id_from_header() {
    let mut req = empty_request();
    req.append_header("X-REQUEST-ID", "12345");

    add_context_to_request(&mut req);

    let context = req.context.as_ref().unwrap();
    assert_eq!(context.get_request_id(), "12345".to_string());
}

#[test]
fn adds_context_with_generated_request_id_when_header_absent() {
    let mut req = empty_request();

    add_context_to_request(&mut req);

    let id = resolved_id(&req);
    assert!(!id.is_empty());
    assert!(
        uuid::Uuid::parse_str(&id).is_ok(),
        "request_id should be a valid UUID"
    );
}

#[test]
fn context_resolves_request_id_case_insensitively() {
    let header_variations = vec!["X-REQUEST-ID", "x-request-id", "X-Request-Id", "x-REQUest-iD"];

    for header_name in header_variations {
        let mut req = empty_request();
        req.append_header(header_name, "test-id");

        add_context_to_request(&mut req);

        assert_eq!(resolved_id(&req), "test-id", "Failed for header: {}", header_name);
    }
}

#[test]
fn generated_request_id_is_uuid_v4_text() {
    let mut req = empty_request();
    req.append_header("Accept", "*/*");
    add_context_to_request(&mut req);
    let id = resolved_id(&req);
    assert_eq!(id.len(), 36);
    assert!(is_v4_text(&id));
    assert_eq!(&id[14..15], "4");
    assert!(["8", "9", "a", "b"].contains(&&id[19..20]));
}

#[test]
fn consecutive_requests_without_header_get_distinct_ids() {
    let mut a = empty_request();
    let mut b = empty_request();
    add_context_to_request(&mut a);
    add_context_to_request(&mut b);
    assert_ne!(resolved_id(&a), resolved_id(&b));
}

#[test]
fn empty_header_value_is_replaced_by_generated_id() {
    let mut req = empty_request();
    req.append_header("X-REQUEST-ID", "");
    add_context_to_request(&mut req);
    assert!(is_v4_text(&resolved_id(&req)));
}

#[test]
fn non_text_header_value_is_treated_as_absent() {
    let mut req = empty_request();
    req.append_header("x-request-id", "caf\u{e9}");
    add_context_to_request(&mut req);
    assert!(is_v4_text(&resolved_id(&req)));
}

#[test]
fn header_value_is_kept_verbatim_even_if_not_an_id() {
    let mut req = empty_request();
    req.append_header("X-Request-Id", "not a uuid\twith tab");
    add_context_to_request(&mut req);
    assert_eq!(resolved_id(&req), "not a uuid\twith tab");
}

#[test]
fn first_request_id_header_wins() {
    let mut req = empty_request();
    req.append_header("X-Request-Id", "first");
    req.append_header("x-request-id", "second");
    add_context_to_request(&mut req);
    assert_eq!(resolved_id(&req), "first");
}

#[test]
fn similar_header_names_do_not_match() {
    let headers = vec![
        Header { name: "X-REQUEST-IDS".to_string(), value: "a".to_string() },
        Header { name: "X_REQUEST_ID".to_string(), value: "b".to_string() },
        Header { name: "Content-Type".to_string(), value: "c".to_string() },
    ];
    assert_eq!(request_id_from_headers(&headers), None);
}

#[test]
fn request_id_lookup_finds_header_among_others() {
    let headers = vec![
        Header { name: "Content-Type".to_string(), value: "text/plain".to_string() },
        Header { name: "X-REQUEST-ID".to_string(), value: "abc-123".to_string() },
    ];
    assert_eq!(request_id_from_headers(&headers), Some("abc-123".to_string()));
}

#[test]
fn context_resolution_leaves_request_fields_unchanged() {
    let mut req = Request::new("POST".to_string(), "/api/process".to_string());
    req.append_header("X-REQUEST-ID", "r-1");
    add_context_to_request(&mut req);
    assert_eq!(req.method, "POST");
    assert_eq!(req.uri, "/api/process");
    assert_eq!(req.headers.len(), 1);
    assert_eq!(req.headers[0].value, "r-1");
}

#[test]
fn context_new_keeps_given_id() {
    let c = Context::new(Some("abc".to_string()));
    assert_eq!(c.get_request_id(), "abc");
    assert_eq!(c.clone().get_request_id(), "abc");
}

#[test]
fn context_new_generates_id_when_absent_or_empty() {
    assert!(is_v4_text(&Context::new(None).get_request_id()));
    assert!(is_v4_text(&Context::new(Some(String::new())).get_request_id()));
}
