use ws_bridge::request::IntoClientRequest;

#[test]
fn literal_text_parses_into_its_parts() {
    let req = "ws://host/path".into_client_request().unwrap();
    assert_eq!(req.uri.scheme.as_deref(), Some("ws"));
    assert_eq!(req.uri.host.as_deref(), Some("host"));
    assert_eq!(req.uri.port, None);
    assert_eq!(req.uri.path, "/path");
}

#[test]
fn round_trip_from_text_and_from_parsed_uri_agree() {
    let from_text = "ws://host/path".into_client_request().unwrap();
    let parsed_uri = from_text.uri.clone();
    let from_uri = parsed_uri.into_client_request().unwrap();
    assert_eq!(from_text.uri.scheme, from_uri.uri.scheme);
    assert_eq!(from_text.uri.host, from_uri.uri.host);
    assert_eq!(from_text.uri.path, from_uri.uri.path);
}

#[test]
fn owned_text_and_borrowed_text_agree() {
    let owned = String::from("ws://example.org:9001/chat").into_client_request().unwrap();
    let by_ref_string = String::from("ws://example.org:9001/chat");
    let by_ref = (&by_ref_string).into_client_request().unwrap();
    let borrowed = "ws://example.org:9001/chat".into_client_request().unwrap();
    assert_eq!(owned.uri.scheme, borrowed.uri.scheme);
    assert_eq!(owned.uri.host, borrowed.uri.host);
    assert_eq!(owned.uri.port, Some(9001));
    assert_eq!(by_ref.uri.port, Some(9001));
    assert_eq!(owned.uri.path, borrowed.uri.path);
}

#[test]
fn request_converts_to_itself_unchanged() {
    let req = "ws://host/path".into_client_request().unwrap();
    let scheme = req.uri.scheme.clone();
    let again = req.into_client_request().unwrap();
    assert_eq!(again.uri.scheme, scheme);
}

#[test]
fn malformed_text_fails_with_a_url_error_naming_it() {
    match "not a uri at all".into_client_request() {
        Err(ws_bridge::error::Error::Url(text)) => assert_eq!(text, "not a uri at all"),
        _ => panic!("malformed text must fail with a URL error"),
    }
}

#[test]
fn empty_text_fails_with_a_url_error() {
    assert!(matches!(
        "".into_client_request(),
        Err(ws_bridge::error::Error::Url(_))
    ));
}
