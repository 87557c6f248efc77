use github_scopes_rs::oauth::{OAuthContext, ScopeError};

#[test]
fn unreachable_server_fails_construction_with_a_transport_error() {
    let r = OAuthContext::with_domain("dummy-token", "http://127.0.0.1:1");
    match r {
        Ok(_) => panic!("expected a transport error"),
        Err(e) => assert_eq!(e, ScopeError::Transport),
    }
}
