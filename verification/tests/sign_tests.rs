use gdax_client::sign::sign;
use gdax_client::Error;

/// Golden vector: secret "c2VjcmV0" (base64 of "secret"), GET /accounts,
/// empty body, fixed timestamp.
#[test]
fn golden_signature_get_accounts() {
    let sig = sign("c2VjcmV0", "1600000000", "GET", "/accounts", "").unwrap();
    assert_eq!(sig, "8M7Zgxup6gPRHY8YWQaUmWye+0tI759DqkczGANKp6A=");
}

#[test]
fn golden_signature_post_order() {
    let body = "{\"type\":\"limit\",\"side\":\"buy\",\"product_id\":\"BTC-USD\",\"price\":1.5,\"size\":2}";
    let sig = sign("c2VjcmV0", "1600000000", "POST", "/orders", body).unwrap();
    assert_eq!(sig, "4rL6cv7rJdjuyQjZM92o01MTWRV9sidYJRVSFDODgKg=");
}

#[test]
fn identical_inputs_identical_signatures() {
    let a = sign("c2VjcmV0", "1600000000", "GET", "/accounts", "").unwrap();
    let b = sign("c2VjcmV0", "1600000000", "GET", "/accounts", "").unwrap();
    assert_eq!(a, b);
}

#[test]
fn one_body_byte_changes_the_signature() {
    let a = sign("c2VjcmV0", "1600000000", "POST", "/orders", "{}").unwrap();
    let b = sign("c2VjcmV0", "1600000000", "POST", "/orders", "{} ").unwrap();
    assert_ne!(a, b);
}

#[test]
fn method_is_uppercased_before_signing() {
    let a = sign("c2VjcmV0", "1600000000", "get", "/accounts", "").unwrap();
    let b = sign("c2VjcmV0", "1600000000", "GET", "/accounts", "").unwrap();
    assert_eq!(a, b);
}

#[test]
fn invalid_secret_is_a_construction_error() {
    let r = sign("!!! not base64 !!!", "1600000000", "GET", "/accounts", "");
    assert!(matches!(r, Err(Error::InvalidSecretKey)));
}
