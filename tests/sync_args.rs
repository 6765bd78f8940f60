use native_bridge::error::BridgeError;
use native_bridge::sync_args::{sync_target, TOKENSERVER_URL};

#[test]
fn token_server_url_parses() {
    let t = sync_target("kid".to_string(), "tok".to_string(), TOKENSERVER_URL).unwrap();
    assert_eq!(t.key_id, "kid");
    assert_eq!(t.access_token, "tok");
    assert_eq!(t.tokenserver_url, "https://token.services.mozilla.com/");
}

#[test]
fn url_is_normalized_by_the_parser() {
    let t = sync_target(String::new(), String::new(), "HTTPS://Token.Services.Mozilla.com").unwrap();
    assert_eq!(t.tokenserver_url, "https://token.services.mozilla.com/");
}

#[test]
fn bad_url_is_malformed_argument() {
    let r = sync_target("kid".to_string(), "tok".to_string(), "not a url");
    assert!(matches!(r, Err(BridgeError::MalformedArgument)));
}
