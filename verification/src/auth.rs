use vstd::prelude::*;

use crate::errors::ServiceError;

verus! {

/// The claims of an auth token that the helpers read: the subject (the user's
/// identifier) and the expiry instant, in seconds of Unix time.
pub struct Claims {
    pub sub: String,
    pub exp: u64,
}

/// What looking the auth token up in a request yielded.
pub enum TokenLookup {
    /// The request carries no auth-token cookie.
    Missing,
    /// The cookie's value did not decode as a token.
    Invalid,
    /// The token decoded to these claims.
    Decoded(Claims),
}

/// A token is expired when its expiry instant lies strictly before `now`.
pub fn is_jwt_expired(exp: u64, now: u64) -> (r: bool)
    ensures
        r == (exp < now),
{
    exp < now
}

/// Resolves the user's identifier from a token lookup, at the instant `now`:
/// the subject of a decoded, unexpired token; otherwise the unauthorized
/// error that names what went wrong.
pub fn user_id_from_token(token: TokenLookup, now: u64) -> (r: Result<String, ServiceError>)
    ensures
        r is Ok <==> (token matches TokenLookup::Decoded(c) && c.exp >= now),
        r matches Ok(id) ==> (token matches TokenLookup::Decoded(c) && id == c.sub),
        token matches TokenLookup::Missing ==> (r matches Err(e) && e
            matches ServiceError::Unauthorized(m) && m@ == "Token tidak ditemukan"@),
        token matches TokenLookup::Invalid ==> (r matches Err(e) && e
            matches ServiceError::Unauthorized(m) && m@ == "Token tidak valid"@),
        (token matches TokenLookup::Decoded(c) && c.exp < now) ==> (r matches Err(e) && e
            matches ServiceError::Unauthorized(m) && m@ == "Token sudah expired"@),
{
    match token {
        TokenLookup::Missing => Err(
            ServiceError::Unauthorized(String::from_str("Token tidak ditemukan")),
        ),
        TokenLookup::Invalid => Err(
            ServiceError::Unauthorized(String::from_str("Token tidak valid")),
        ),
        TokenLookup::Decoded(c) => {
            if is_jwt_expired(c.exp, now) {
                Err(ServiceError::Unauthorized(String::from_str("Token sudah expired")))
            } else {
                Ok(c.sub)
            }
        },
    }
}

} // verus!
