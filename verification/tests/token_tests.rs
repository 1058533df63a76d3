use convo::token::Claims;
use convo::token::TokenCodec;
use convo::token::TokenError;
use convo::token::TOKEN_TTL_SECONDS;

fn codec() -> TokenCodec {
    TokenCodec::new(Some(b"test-secret".to_vec()))
}

#[test]
fn issue_then_verify_returns_subject() {
    let c = codec();
    let now: u64 = 1_700_000_000;
    let token = c.issue("alice", now).unwrap();
    let claims = c.verify(&token, now).unwrap();
    assert_eq!(claims.sub, "alice");
    assert_eq!(claims.exp, now + TOKEN_TTL_SECONDS);
}

#[test]
fn issue_uses_the_configured_ttl() {
    let c = codec();
    let now: u64 = 123;
    let token = c.issue("x", now).unwrap();
    let claims = c.verify(&token, now).unwrap();
    assert_eq!(claims.exp, now + 86400);
}

#[test]
fn verify_succeeds_strictly_before_expiry_and_fails_from_it_on() {
    let c = codec();
    let now: u64 = 1_700_000_000;
    let token = c.issue("bob", now).unwrap();
    let exp = now + TOKEN_TTL_SECONDS;
    assert!(c.verify(&token, exp - 1).is_ok());
    assert_eq!(c.verify(&token, exp).unwrap_err(), TokenError::Expired);
    assert_eq!(c.verify(&token, exp + 5).unwrap_err(), TokenError::Expired);
}

#[test]
fn signature_bit_flip_is_malformed_never_valid() {
    let c = codec();
    let now: u64 = 1_700_000_000;
    let token = c.issue("carol", now).unwrap();
    let sig_start = token.rfind('.').unwrap() + 1;
    let bytes = token.as_bytes();
    assert!(sig_start < token.len());
    for i in sig_start..token.len() {
        for bit in 0..8 {
            let mut tampered = bytes.to_vec();
            tampered[i] ^= 1u8 << bit;
            // a flip of the high bit leaves the byte outside ASCII; only
            // flips that still form text can be presented as a token at all
            if let Ok(s) = String::from_utf8(tampered) {
                match c.verify(&s, now) {
                    Err(TokenError::Malformed) => (),
                    other => panic!("byte {} bit {}: expected Malformed, got {:?}", i, bit, other),
                }
            }
        }
    }
}

#[test]
fn wrong_secret_is_malformed() {
    let c1 = TokenCodec::new(Some(b"one".to_vec()));
    let c2 = TokenCodec::new(Some(b"two".to_vec()));
    let token = c1.issue("dave", 1_000).unwrap();
    assert_eq!(c2.verify(&token, 1_000).unwrap_err(), TokenError::Malformed);
}

#[test]
fn garbage_tokens_are_malformed() {
    let c = codec();
    assert_eq!(c.verify("", 0).unwrap_err(), TokenError::Malformed);
    assert_eq!(c.verify("not-a-token", 0).unwrap_err(), TokenError::Malformed);
    assert_eq!(c.verify("a.b.c", 0).unwrap_err(), TokenError::Malformed);
    assert_eq!(c.verify("e30.e30.e30", 0).unwrap_err(), TokenError::Malformed);
}

#[test]
fn missing_secret_is_a_config_error() {
    let c = TokenCodec::new(None);
    assert_eq!(c.issue("x", 0).unwrap_err(), TokenError::Config);
    assert_eq!(c.verify("whatever", 0).unwrap_err(), TokenError::Config);
}

#[test]
fn verify_twice_yields_identical_claims() {
    let c = codec();
    let now: u64 = 1_700_000_000;
    let token = c.issue("erin", now).unwrap();
    let first = c.verify(&token, now).unwrap();
    let second = c.verify(&token, now + 10).unwrap();
    assert_eq!(first.sub, second.sub);
    assert_eq!(first.exp, second.exp);
    assert_eq!(first, Claims { sub: "erin".to_string(), exp: now + TOKEN_TTL_SECONDS });
}

#[test]
fn token_is_an_opaque_three_part_wire_string() {
    let token = codec().issue("frank", 1_000).unwrap();
    assert_eq!(token.chars().filter(|ch| *ch == '.').count(), 2);
    assert_ne!(token, "frank");
}
