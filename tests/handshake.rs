use rocket_websocket::{
    accept_key, convert_key, respond, upgrade_response, HandshakeError, UpgradeRequest,
    STATUS_BAD_REQUEST, STATUS_SWITCHING_PROTOCOLS,
};

const RFC_KEY: &str = "dGhlIHNhbXBsZSBub25jZQ==";
const RFC_ACCEPT: &str = "s3pPLMBiTxaQ9kYGzzhZRbK+xOo=";

fn request(keys: &[&str], versions: &[&str]) -> UpgradeRequest {
    UpgradeRequest {
        key_values: keys.iter().map(|k| k.to_string()).collect(),
        version_values: versions.iter().map(|v| v.to_string()).collect(),
    }
}

#[test]
fn rfc_example_key_gives_rfc_accept_token() {
    assert_eq!(convert_key(RFC_KEY.as_bytes()), RFC_ACCEPT);
}

#[test]
fn accept_token_of_empty_key() {
    assert_eq!(convert_key(b""), "Kfh9QIsMVZcl6xEPYxPHzW8SZ8w=");
}

#[test]
fn different_keys_give_different_tokens() {
    let a = convert_key(b"AQIDBAUGBwgJCgsMDQ4PEA==");
    let b = convert_key(b"AQIDBAUGBwgJCgsMDQ4PEQ==");
    assert_eq!(a, "C/0nmHhBztSRGR1CwL6Tf4ZjwpY=");
    assert_eq!(b.len(), 28);
    assert_ne!(a, b);
}

#[test]
fn missing_key_is_rejected() {
    let r = accept_key(&request(&[], &["13"]));
    assert_eq!(r, Err(HandshakeError::MissingKey));
    assert_eq!(HandshakeError::MissingKey.status(), 400);
    assert!(respond(&request(&[], &[])).is_err());
}

#[test]
fn repeated_key_is_rejected() {
    let r = accept_key(&request(&[RFC_KEY, RFC_KEY], &["13"]));
    assert_eq!(r, Err(HandshakeError::RepeatedKey));
}

#[test]
fn wrong_version_is_rejected() {
    let r = accept_key(&request(&[RFC_KEY], &["8"]));
    assert_eq!(r, Err(HandshakeError::UnsupportedVersion));
    assert_eq!(HandshakeError::UnsupportedVersion.status(), STATUS_BAD_REQUEST);
    let r = accept_key(&request(&[RFC_KEY], &["13", "130"]));
    assert_eq!(r, Err(HandshakeError::UnsupportedVersion));
    let r = accept_key(&request(&[RFC_KEY], &[""]));
    assert_eq!(r, Err(HandshakeError::UnsupportedVersion));
}

#[test]
fn absent_version_is_accepted() {
    let r = accept_key(&request(&[RFC_KEY], &[]));
    assert_eq!(r, Ok(RFC_ACCEPT.to_string()));
}

#[test]
fn version_thirteen_is_accepted() {
    let r = accept_key(&request(&[RFC_KEY], &["13"]));
    assert_eq!(r, Ok(RFC_ACCEPT.to_string()));
}

#[test]
fn valid_request_gets_switching_protocols_response() {
    let resp = match respond(&request(&[RFC_KEY], &["13"])) {
        Ok(resp) => resp,
        Err(e) => panic!("refused: {:?}", e),
    };
    assert_eq!(resp.status, 101);
    assert_eq!(resp.status, STATUS_SWITCHING_PROTOCOLS);
    assert_eq!(
        resp.headers,
        vec![
            ("Connection".to_string(), "upgrade".to_string()),
            ("Upgrade".to_string(), "websocket".to_string()),
            ("Sec-WebSocket-Accept".to_string(), RFC_ACCEPT.to_string()),
        ]
    );
    assert_eq!(resp.body, "Switching protocols to WebSocket");
}

#[test]
fn upgrade_response_carries_given_token() {
    let resp = upgrade_response("abc".to_string());
    assert_eq!(resp.status, 101);
    assert_eq!(resp.headers.len(), 3);
    assert_eq!(resp.headers[2].1, "abc");
}
