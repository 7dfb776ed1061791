use api_template::handlers::{health, process};

#[test]
fn it_works() {
    assert_eq!(2 + 2, 4);
}

#[test]
fn health_returns_ok() {
    let r = health();
    assert_eq!(r.status, 200);
    assert_eq!(r.body, "OK");
}

#[test]
fn process_toto_succeeds_and_logs_payload() {
    let r = process(&"toto".to_string());
    assert_eq!(r.response.status, 200);
    assert_eq!(r.response.body, "");
    assert_eq!(r.log_message, "processing toto");
    assert!(r.log_message.contains("toto"));
}

#[test]
fn process_accepts_any_string() {
    for payload in ["", "\"toto\"", "{\"a\": 1}", "h\u{e9}llo \u{1f600}"] {
        let r = process(&payload.to_string());
        assert_eq!(r.response.status, 200);
        assert_eq!(r.response.body, "");
        assert!(r.log_message.contains(payload));
    }
}

#[test]
fn repeated_requests_are_independent() {
    for _ in 0..5 {
        let h = health();
        assert_eq!(h.status, 200);
        assert_eq!(h.body, "OK");
        let p = process(&"toto".to_string());
        assert_eq!(p.response.status, 200);
        assert_eq!(p.log_message, "processing toto");
    }
}
