use stubby::stub::{names_match, StubMessage, StubParam, StubRequest, StubResponse};

fn param(name: &str, value: &str) -> StubParam {
    StubParam { name: name.to_string(), value: value.to_string() }
}

fn request() -> StubRequest {
    StubRequest {
        params: vec![param("Wait", "5"), param("id", "a"), param("ID", "b"), param("other", "c")],
        ..Default::default()
    }
}

#[test]
fn get_param_ignores_ascii_case() {
    let req = request();
    assert_eq!(req.get_param("wait"), Some("5"));
    assert_eq!(req.get_param("WAIT"), Some("5"));
    assert_eq!(req.get_param("Id"), Some("a"));
    assert_eq!(req.get_param("missing"), None);
    assert_eq!(req.get_param("wai"), None);
}

#[test]
fn get_params_keeps_order() {
    let req = request();
    assert_eq!(req.get_params("id"), vec!["a", "b"]);
    assert_eq!(req.get_params("OTHER"), vec!["c"]);
    assert_eq!(req.get_params("none"), Vec::<&str>::new());
}

#[test]
fn get_param_on_empty_request() {
    let req = StubRequest::default();
    assert_eq!(req.get_param("x"), None);
    assert!(req.get_params("x").is_empty());
}

#[test]
fn messages_expose_headers_and_body() {
    let req = StubRequest { headers: vec![param("h", "v")], body: Some(vec![1, 2]), ..Default::default() };
    assert_eq!(req.headers().len(), 1);
    assert_eq!(req.body(), Some(&vec![1u8, 2]));
    let resp = StubResponse { status: 201, headers: vec![], body: None };
    assert!(resp.headers().is_empty());
    assert_eq!(resp.body(), None);
}

#[test]
fn names_match_ignores_ascii_case_only() {
    assert!(names_match("Content-Type", "content-TYPE"));
    assert!(names_match("", ""));
    assert!(!names_match("abc", "abd"));
    assert!(!names_match("abc", "abcd"));
    assert!(!names_match("@", "`"));
    assert!(!names_match("\u{e9}", "\u{c9}"));
    assert!(names_match("\u{e9}x", "\u{e9}X"));
}
