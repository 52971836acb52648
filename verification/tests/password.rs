use natter::error::Error;
use natter::password::{hash_password, verify_password};

#[test]
fn hash_then_verify_is_true() {
    let encoded = hash_password("longpassword");
    assert_eq!(verify_password(&encoded, "longpassword"), Ok(true));
}

#[test]
fn verify_with_wrong_secret_is_false() {
    let encoded = hash_password("longpassword");
    assert_eq!(verify_password(&encoded, "longpassword2"), Ok(false));
    assert_eq!(verify_password(&encoded, ""), Ok(false));
}

#[test]
fn two_hashes_of_same_secret_differ_and_both_verify() {
    let first = hash_password("correct horse battery staple");
    let second = hash_password("correct horse battery staple");
    assert_ne!(first, second);
    assert_eq!(verify_password(&first, "correct horse battery staple"), Ok(true));
    assert_eq!(verify_password(&second, "correct horse battery staple"), Ok(true));
}

#[test]
fn hash_is_self_describing_not_the_secret() {
    let encoded = hash_password("s3cretsecret");
    assert!(encoded.starts_with("$argon2"));
    assert!(!encoded.contains("s3cretsecret"));
}

#[test]
fn unparsable_hash_is_malformed_hash_error() {
    assert_eq!(verify_password("not an encoded hash", "whatever"), Err(Error::MalformedHash));
    assert_eq!(verify_password("", "whatever"), Err(Error::MalformedHash));
}
