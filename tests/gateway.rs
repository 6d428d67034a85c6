use portfolio_site::gateway::{gate, redirect_location, GateDecision, REDIRECT_STATUS};

#[test]
fn redirect_keeps_host_path_and_query() {
    assert_eq!(redirect_location("host", "/foo?x=1"), "https://host/foo?x=1");
}

#[test]
fn plaintext_requests_are_redirected() {
    match gate("http", "example.org:8080", "/a/b?c=d&e") {
        GateDecision::Redirect(loc) => assert_eq!(loc, "https://example.org:8080/a/b?c=d&e"),
        GateDecision::Forward => panic!("plaintext must be redirected"),
    }
    assert!(REDIRECT_STATUS == 301 || REDIRECT_STATUS == 302);
}

#[test]
fn encrypted_requests_go_through() {
    assert!(matches!(gate("https", "host", "/"), GateDecision::Forward));
}
