//! Codec for compact signed identity tokens.
//!
//! A token carries an identity claim — a subject and an absolute expiry —
//! signed with a server-held symmetric secret. The codec is stateless apart
//! from the secret it was configured with: issuing and verifying are pure
//! functions of their arguments, so verification never caches and never
//! trusts a field before the signature has been checked (the underlying
//! decoder verifies the signature first, then reads the payload).
//!
//! The wire work — signing, signature checking, payload framing — is done by
//! the `jsonwebtoken` crate behind two trusted wrappers; everything decided
//! on the result (expiry, error taxonomy) is verified here against an
//! explicit clock value passed by the caller.

use vstd::prelude::*;

verus! {

/// Seconds a freshly issued token stays valid: 24 hours.
pub const TOKEN_TTL_SECONDS: u64 = 86400;

/// A verified identity claim: the authenticated principal and the absolute
/// time (seconds since epoch) at which the claim stops being valid.
#[derive(Debug, Clone, PartialEq, Eq)]
pub struct Claims {
    pub sub: String,
    pub exp: u64,
}

/// Why issuing or verifying a token failed.
#[derive(Debug, Clone, Copy, PartialEq, Eq, Structural)]
pub enum TokenError {
    /// The signing secret is not configured.
    Config,
    /// The claim's expiry is not in the future.
    Expired,
    /// The token does not parse, or its signature does not match.
    Malformed,
}

/// What the underlying encoder produces for a subject, an expiry and a
/// secret: the signed token text, or nothing where encoding fails. The text
/// itself is opaque; it depends on these three arguments alone.
pub uninterp spec fn token_of(sub: Seq<char>, exp: u64, secret: Seq<u8>) -> Option<Seq<char>>;

/// What the underlying decoder makes of a token text under a secret: the
/// embedded subject and expiry where the token parses and its signature
/// matches the secret, nothing otherwise. It depends on these two arguments
/// alone.
pub uninterp spec fn decode_of(token: Seq<char>, secret: Seq<u8>) -> Option<(Seq<char>, u64)>;

/// The full outcome of verifying `token` under `secret` at instant `now`:
/// no secret is a configuration failure; a token the decoder rejects is
/// malformed; a decoded claim whose expiry is not strictly in the future is
/// expired; anything else is the embedded claim, unmodified.
pub open spec fn verify_model(secret: Option<Seq<u8>>, token: Seq<char>, now: u64) -> Result<
    (Seq<char>, u64),
    TokenError,
> {
    match secret {
        None => Err(TokenError::Config),
        Some(k) => match decode_of(token, k) {
            None => Err(TokenError::Malformed),
            Some(c) => if c.1 <= now {
                Err(TokenError::Expired)
            } else {
                Ok(c)
            },
        },
    }
}

/// Relies on `jsonwebtoken::encode` with the default header (HS256) and a
/// key built by `EncodingKey::from_secret`: the token is a deterministic
/// function of the claim fields and the secret, and `jsonwebtoken::decode`
/// under the same secret accepts its signature and returns the very claim
/// fields that were encoded.
#[verifier::external_body]
fn encode_hs256(sub: &str, exp: u64, secret: &[u8]) -> (r: Option<String>)
    ensures
        (match r {
            Some(t) => Some(t@),
            None => None::<Seq<char>>,
        }) == token_of(sub@, exp, secret@),
        r matches Some(t) ==> decode_of(t@, secret@) == Some((sub@, exp)),
{
    let mut claims = serde_json::Map::new();
    claims.insert("sub".to_string(), serde_json::Value::String(sub.to_string()));
    claims.insert("exp".to_string(), serde_json::Value::Number(serde_json::Number::from(exp)));
    let key = jsonwebtoken::EncodingKey::from_secret(secret);
    jsonwebtoken::encode(&jsonwebtoken::Header::default(), &serde_json::Value::Object(claims), &key)
        .ok()
}

/// Relies on `jsonwebtoken::decode` restricted to HS256, with its own expiry
/// check turned off and no claim made required: it verifies the signature
/// first, then parses the payload, and touches no clock, so the outcome is a
/// deterministic function of the token text and the secret — `Some` exactly
/// when the signature matches and the payload holds a string `sub` and an
/// integral `exp`.
#[verifier::external_body]
fn decode_hs256(token: &str, secret: &[u8]) -> (r: Option<(String, u64)>)
    ensures
        (match r {
            Some(p) => Some((p.0@, p.1)),
            None => None::<(Seq<char>, u64)>,
        }) == decode_of(token@, secret@),
{
    let mut validation = jsonwebtoken::Validation::new(jsonwebtoken::Algorithm::HS256);
    validation.validate_exp = false;
    validation.required_spec_claims = std::collections::HashSet::new();
    let key = jsonwebtoken::DecodingKey::from_secret(secret);
    let claims = match jsonwebtoken::decode::<serde_json::Value>(token, &key, &validation) {
        Ok(data) => data.claims,
        Err(_) => return None,
    };
    match (claims.get("sub"), claims.get("exp")) {
        (Some(serde_json::Value::String(s)), Some(e)) => match e.as_u64() {
            Some(exp) => Some((s.clone(), exp)),
            None => None,
        },
        _ => None,
    }
}

/// Produces and verifies signed identity tokens with the single symmetric
/// secret it was constructed with. `None` models a deployment where the
/// secret was never configured: every operation then fails with
/// [`TokenError::Config`].
pub struct TokenCodec {
    secret: Option<Vec<u8>>,
}

impl TokenCodec {
    /// The signing secret this codec was configured with, if any.
    pub closed spec fn secret_model(&self) -> Option<Seq<u8>> {
        match self.secret {
            Some(k) => Some(k@),
            None => None,
        }
    }

    /// A codec over the given secret; `None` stands for a missing
    /// configuration and makes every later operation fail.
    pub fn new(secret: Option<Vec<u8>>) -> (c: Self)
        ensures
            c.secret_model() == (match secret {
                Some(k) => Some(k@),
                None => None::<Seq<u8>>,
            }),
    {
        TokenCodec { secret }
    }

    /// Issue a signed token for `subject`, valid for [`TOKEN_TTL_SECONDS`]
    /// from the instant `now`. On success the token is exactly the encoder's
    /// output for these claim fields, it decodes under the same secret back
    /// to them, and verifying it at `now` returns the issued claim — so a
    /// fresh token always verifies to its own subject.
    pub fn issue(&self, subject: &str, now: u64) -> (r: Result<String, TokenError>)
        requires
            now <= u64::MAX - TOKEN_TTL_SECONDS,
        ensures
            ({
                match self.secret_model() {
                    None => r matches Err(e) && e == TokenError::Config,
                    Some(k) => {
                        let exp = (now + TOKEN_TTL_SECONDS) as u64;
                        match r {
                            Ok(t) => token_of(subject@, exp, k) == Some(t@) && decode_of(t@, k)
                                == Some((subject@, exp)) && verify_model(Some(k), t@, now) == Ok::<
                                (Seq<char>, u64),
                                TokenError,
                            >((subject@, exp)),
                            Err(e) => e == TokenError::Config && token_of(subject@, exp, k) is None,
                        }
                    },
                }
            }),
    {
        match &self.secret {
            None => Err(TokenError::Config),
            Some(k) => match encode_hs256(subject, now + TOKEN_TTL_SECONDS, k.as_slice()) {
                Some(t) => Ok(t),
                None => Err(TokenError::Config),
            },
        }
    }

    /// Verify `token` at instant `now`: check the signature, then the
    /// expiry, and return the embedded claim unmodified. The outcome is
    /// exactly [`verify_model`] — in particular, each error names the one
    /// condition that produced it, and success is owed whenever the token
    /// decodes under the configured secret to an unexpired claim.
    pub fn verify(&self, token: &str, now: u64) -> (r: Result<Claims, TokenError>)
        ensures
            ({
                let m = verify_model(self.secret_model(), token@, now);
                match r {
                    Ok(c) => m == Ok::<(Seq<char>, u64), TokenError>((c.sub@, c.exp)),
                    Err(e) => m == Err::<(Seq<char>, u64), TokenError>(e),
                }
            }),
    {
        match &self.secret {
            None => Err(TokenError::Config),
            Some(k) => match decode_hs256(token, k.as_slice()) {
                None => Err(TokenError::Malformed),
                Some((s, e)) => if e <= now {
                    Err(TokenError::Expired)
                } else {
                    Ok(Claims { sub: s, exp: e })
                },
            },
        }
    }
}

/// Verification flips at the expiry instant and nowhere else: at every
/// instant strictly before it the embedded claim comes back, exactly as it
/// was issued; at it and after it the one failure is `Expired`.
pub proof fn lemma_expiry_boundary(k: Seq<u8>, t: Seq<char>, now: u64)
    ensures
        decode_of(t, k) matches Some(c) ==> (now < c.1 ==> verify_model(Some(k), t, now) == Ok::<
            (Seq<char>, u64),
            TokenError,
        >(c)),
        decode_of(t, k) matches Some(c) ==> (c.1 <= now ==> verify_model(Some(k), t, now) == Err::<
            (Seq<char>, u64),
            TokenError,
        >(TokenError::Expired)),
{
}

/// Verifying one token twice, at two instants where it succeeds at all,
/// yields identical claims: verification is a pure function of the token,
/// the secret and the clock, with nothing cached between calls.
pub proof fn lemma_verify_idempotent(k: Seq<u8>, t: Seq<char>, n1: u64, n2: u64)
    ensures
        verify_model(Some(k), t, n1) matches Ok(c1) ==> (verify_model(Some(k), t, n2) matches Ok(
            c2,
        ) ==> c1 == c2),
{
}

} // verus!
