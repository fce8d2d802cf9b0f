use crabdrive_server::auth::{decode_bearer_token, new_bearer_token};

fn now() -> i64 {
    chrono::Utc::now().timestamp()
}

#[test]
fn test_bearer_token() {
    let secret = "CLASSIFIED";

    let id = uuid::Uuid::new_v4().as_u128();
    let token = new_bearer_token(id, 1, now(), secret.as_bytes()).unwrap();

    let claims = decode_bearer_token(&token, secret.as_bytes()).unwrap();

    assert_eq!(claims.user_id, id)
}

#[test]
fn test_bearer_token_expiry() {
    let secret = "CLASSIFIED";

    let id = uuid::Uuid::new_v4().as_u128();

    // default settings allow for 60 seconds of "leeway" so our expiry must be at least 60 seconds in the past
    let token = new_bearer_token(id, -61, now(), secret.as_bytes()).unwrap();

    let claims_result_error: bool = decode_bearer_token(&token, secret.as_bytes()).err().unwrap();

    assert!(claims_result_error);
}

#[test]
fn token_claims_come_back() {
    let id: u128 = 0x0123_4567_89ab_cdef_0123_4567_89ab_cdef;
    let issued = now();
    let token = new_bearer_token(id, 900, issued, b"secret").unwrap();
    let claims = decode_bearer_token(&token, b"secret").unwrap();
    assert_eq!(claims.user_id, id);
    assert_eq!(claims.exp, issued + 900);
}

#[test]
fn token_of_another_secret_is_refused() {
    let token = new_bearer_token(7, 900, now(), b"one secret").unwrap();
    assert_eq!(decode_bearer_token(&token, b"another secret").err(), Some(false));
    assert_eq!(decode_bearer_token("not a token", b"one secret").err(), Some(false));
}

#[test]
fn same_claims_give_same_token() {
    let a = new_bearer_token(42, 10, 1_000, b"k").unwrap();
    let b = new_bearer_token(42, 10, 1_000, b"k").unwrap();
    let c = new_bearer_token(42, 11, 1_000, b"k").unwrap();
    assert_eq!(a, b);
    assert_ne!(a, c);
}
