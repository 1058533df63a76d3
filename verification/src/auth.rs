//! The request-authentication interceptor.
//!
//! Every inbound request passes through one checkpoint: either its
//! `Authorization` header carries a bearer token that verifies, and the
//! request goes on with the verified identity claim attached, or the request
//! is rejected before any downstream handler sees it. There is no
//! unauthenticated path past the interceptor, no retry and no caching — each
//! request is verified on its own against the clock value it arrived with.

use vstd::prelude::*;
use vstd::string::StrSliceExecFns;
use vstd::string::StringExecFns;
use crate::token::Claims;
use crate::token::TokenCodec;
use crate::token::verify_model;

verus! {

/// Why the interceptor rejected a request. The two cases are reported to
/// the caller identically, as a generic authorization failure: the split
/// exists for the interceptor's own logic, not to leak which check failed.
#[derive(Debug, Clone, Copy, PartialEq, Eq, Structural)]
pub enum AuthError {
    /// No `Authorization` header, or one without the bearer scheme: there is
    /// no token to examine.
    MissingCredentials,
    /// A token was presented and failed verification, for any reason.
    InvalidCredentials,
}

/// The candidate token inside an `Authorization` header value: the text
/// after the literal scheme prefix `"Bearer "`, if the value starts with
/// that prefix; a value without it carries no extractable token.
pub open spec fn bearer_token(h: Seq<char>) -> Option<Seq<char>> {
    if h.len() >= 7 && h.subrange(0, 7) == "Bearer "@ {
        Some(h.subrange(7, h.len() as int))
    } else {
        None
    }
}

/// The interceptor's full policy for one request, as a function of the configured
/// secret, the request's `Authorization` header and the clock: a request
/// without an extractable token is missing credentials; one whose token
/// fails verification for any reason is invalid; one whose token verifies
/// goes through with exactly the verified claim.
pub open spec fn auth_model(
    secret: Option<Seq<u8>>,
    header: Option<Seq<char>>,
    now: u64,
) -> Result<(Seq<char>, u64), AuthError> {
    match header {
        None => Err(AuthError::MissingCredentials),
        Some(h) => match bearer_token(h) {
            None => Err(AuthError::MissingCredentials),
            Some(t) => match verify_model(secret, t, now) {
                Ok(c) => Ok(c),
                Err(_) => Err(AuthError::InvalidCredentials),
            },
        },
    }
}

/// Extract the token following the `"Bearer "` scheme prefix, if the header
/// value starts with it.
pub fn strip_bearer(h: &str) -> (r: Option<&str>)
    ensures
        match r {
            Some(t) => bearer_token(h@) == Some(t@),
            None => bearer_token(h@) is None,
        },
{
    let n = h.unicode_len();
    if n < 7 {
        None
    } else {
        let prefix = h.substring_char(0, 7);
        if String::from_str(prefix) == String::from_str("Bearer ") {
            Some(h.substring_char(7, n))
        } else {
            None
        }
    }
}

/// The uniform interceptor in front of every route: holds the token codec and
/// applies one policy, [`auth_model`], to each request.
pub struct AuthMiddleware {
    codec: TokenCodec,
}

impl AuthMiddleware {
    /// The signing secret of the codec behind the interceptor, if configured.
    pub closed spec fn secret_model(&self) -> Option<Seq<u8>> {
        self.codec.secret_model()
    }

    /// An interceptor over the given codec.
    pub fn new(codec: TokenCodec) -> (m: Self)
        ensures
            m.secret_model() == codec.secret_model(),
    {
        AuthMiddleware { codec }
    }

    /// Intercept one request. `header` is the request's `Authorization` value,
    /// `now` the clock at arrival. The result is exactly [`auth_model`]: a
    /// claim to attach to the request before it reaches its handler, or the
    /// rejection that stops it — there is no third way through.
    pub fn authenticate(&self, header: Option<&str>, now: u64) -> (r: Result<Claims, AuthError>)
        ensures
            ({
                let m = auth_model(
                    self.secret_model(),
                    match header {
                        Some(h) => Some(h@),
                        None => None::<Seq<char>>,
                    },
                    now,
                );
                match r {
                    Ok(c) => m == Ok::<(Seq<char>, u64), AuthError>((c.sub@, c.exp)),
                    Err(e) => m == Err::<(Seq<char>, u64), AuthError>(e),
                }
            }),
    {
        match header {
            None => Err(AuthError::MissingCredentials),
            Some(h) => match strip_bearer(h) {
                None => Err(AuthError::MissingCredentials),
                Some(tok) => match self.codec.verify(tok, now) {
                    Ok(c) => Ok(c),
                    Err(_) => Err(AuthError::InvalidCredentials),
                },
            },
        }
    }
}

/// A request with no `Authorization` header is rejected outright, whatever
/// the configuration and the clock: no downstream handler can see it.
pub proof fn lemma_missing_header_rejected(secret: Option<Seq<u8>>, now: u64)
    ensures
        auth_model(secret, None, now) == Err::<(Seq<char>, u64), AuthError>(
            AuthError::MissingCredentials,
        ),
{
}

/// A header that does not carry the bearer scheme is treated exactly like a
/// missing one: with no extractable token, the request is rejected.
pub proof fn lemma_non_bearer_rejected(secret: Option<Seq<u8>>, h: Seq<char>, now: u64)
    ensures
        bearer_token(h) is None ==> auth_model(secret, Some(h), now) == Err::<
            (Seq<char>, u64),
            AuthError,
        >(AuthError::MissingCredentials),
{
}

/// A request whose header is `"Bearer "` followed by a token that decodes,
/// under the configured secret, to a claim unexpired at arrival reaches its
/// handler with exactly that claim — the subject the token was issued for.
pub proof fn lemma_valid_bearer_admitted(k: Seq<u8>, t: Seq<char>, now: u64)
    ensures
        crate::token::decode_of(t, k) matches Some(c) ==> (now < c.1 ==> auth_model(
            Some(k),
            Some("Bearer "@ + t),
            now,
        ) == Ok::<(Seq<char>, u64), AuthError>(c)),
{
    let h = "Bearer "@ + t;
    reveal_strlit("Bearer ");
    assert(h.subrange(0, 7) =~= "Bearer "@);
    assert(h.subrange(7, h.len() as int) =~= t);
}

} // verus!
