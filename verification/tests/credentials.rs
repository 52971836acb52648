use base64::Engine;

use natter::credential::extract_credentials;
use natter::error::Error;

fn basic_header(user_and_secret: &str) -> String {
    let encoded = base64::engine::general_purpose::STANDARD.encode(user_and_secret.as_bytes());
    format!("Basic {}", encoded)
}

#[test]
fn well_formed_basic_header_yields_id_and_secret() {
    let header = basic_header("alice:s3cret");
    let (id, secret) = extract_credentials(Some(&header)).unwrap();
    assert_eq!(id, "alice");
    assert_eq!(secret, "s3cret");
}

#[test]
fn secret_may_contain_colons_split_is_at_first() {
    let header = basic_header("alice:s3:cr:et");
    let (id, secret) = extract_credentials(Some(&header)).unwrap();
    assert_eq!(id, "alice");
    assert_eq!(secret, "s3:cr:et");
}

#[test]
fn empty_id_and_empty_secret_are_extracted() {
    let header = basic_header(":");
    let (id, secret) = extract_credentials(Some(&header)).unwrap();
    assert_eq!(id, "");
    assert_eq!(secret, "");
}

#[test]
fn missing_header_is_malformed_credential() {
    assert_eq!(extract_credentials(None), Err(Error::MalformedCredential));
}

#[test]
fn wrong_scheme_is_malformed_credential() {
    let encoded = base64::engine::general_purpose::STANDARD.encode(b"alice:s3cret");
    let bearer = format!("Bearer {}", encoded);
    assert_eq!(extract_credentials(Some(&bearer)), Err(Error::MalformedCredential));
    assert_eq!(extract_credentials(Some(&encoded)), Err(Error::MalformedCredential));
    assert_eq!(extract_credentials(Some("basic YWxpY2U6czNjcmV0")), Err(Error::MalformedCredential));
}

#[test]
fn invalid_base64_is_malformed_credential() {
    assert_eq!(extract_credentials(Some("Basic !!!not-base64!!!")), Err(Error::MalformedCredential));
}

#[test]
fn invalid_utf8_is_malformed_credential() {
    let encoded = base64::engine::general_purpose::STANDARD.encode([0xffu8, 0xfe, 0xfd]);
    let header = format!("Basic {}", encoded);
    assert_eq!(extract_credentials(Some(&header)), Err(Error::MalformedCredential));
}

#[test]
fn no_colon_in_decoded_text_is_malformed_credential() {
    let header = basic_header("alice s3cret");
    assert_eq!(extract_credentials(Some(&header)), Err(Error::MalformedCredential));
}
