//! Credentials and the headers they emit.

use a2a_client::auth::AuthCredentials;

#[test]
fn test_bearer_credentials() {
    let creds = AuthCredentials::bearer("test-token");
    let (header, value) = creds.to_header();

    assert_eq!(header, "Authorization");
    assert_eq!(value, "Bearer test-token");
}

#[test]
fn test_api_key_credentials() {
    let creds = AuthCredentials::api_key("secret-key", "X-API-Key");
    let (header, value) = creds.to_header();

    assert_eq!(header, "X-API-Key");
    assert_eq!(value, "secret-key");
}

#[test]
fn test_basic_credentials() {
    let creds = AuthCredentials::basic("user", "pass");
    let (header, value) = creds.to_header();

    assert_eq!(header, "Authorization");
    assert!(value.starts_with("Basic "));
}

#[test]
fn test_basic_credentials_exact_encoding() {
    let creds = AuthCredentials::basic("u", "p");
    let (header, value) = creds.to_header();

    assert_eq!(header, "Authorization");
    assert_eq!(value, "Basic dTpw");
}
