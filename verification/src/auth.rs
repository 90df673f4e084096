//! Credential screening for the request path.
//!
//! The upstream credential travels in a single fixed request header.
//! The middleware extracts it before any handler runs: a missing header
//! is rejected as unauthorized, a header that is not readable as text
//! is rejected as a bad request, and anything else is passed through
//! verbatim. The decision is verified here; the HTTP plumbing around
//! it lives outside the library.

use vstd::prelude::*;

verus! {

/// A validated credential token, as screened off the request header.
pub struct FigmaToken(pub String);

/// The fixed request header that carries the upstream credential.
pub fn credential_header_name() -> (r: &'static str)
    ensures
        r@ == "X-Figma-Token"@,
{
    "X-Figma-Token"
}

/// The middleware that screens the credential header.
pub struct FigmaTokenMiddleware;

impl FigmaTokenMiddleware {
    /// A fresh middleware value.
    pub fn new() -> (r: FigmaTokenMiddleware)
        ensures
            true,
    {
        FigmaTokenMiddleware
    }
}

/// The middleware service wrapping an inner service.
pub struct FigmaTokenMiddlewareService<S> {
    pub service: S,
}

/// The credential header as the HTTP layer found it on the request.
pub enum TokenHeader {
    /// No credential header was present.
    Missing,
    /// A header was present but its bytes were not readable as text.
    Unreadable,
    /// The header's text, verbatim.
    Value(String),
}

/// Why a request was rejected before reaching any handler.
pub enum TokenError {
    /// No credential header: unauthorized.
    Missing,
    /// Unreadable credential header: bad request.
    Invalid,
}

impl TokenError {
    /// The HTTP status of the rejection: 401 for a missing credential,
    /// 400 for a malformed one.
    pub fn http_status(&self) -> (r: u16)
        ensures
            r == match self {
                TokenError::Missing => 401u16,
                TokenError::Invalid => 400u16,
            },
    {
        match self {
            TokenError::Missing => 401,
            TokenError::Invalid => 400,
        }
    }

    /// The rejection message shown to the caller.
    pub fn message(&self) -> (r: String)
        ensures
            r@ == match self {
                TokenError::Missing => "Missing X-Figma-Token header"@,
                TokenError::Invalid => "Invalid token format"@,
            },
    {
        match self {
            TokenError::Missing => "Missing X-Figma-Token header".to_owned(),
            TokenError::Invalid => "Invalid token format".to_owned(),
        }
    }
}

/// Screen the credential header: absent is unauthorized, unreadable is
/// a bad request, and any text is accepted verbatim. Nothing else is
/// consulted before this decision, so a rejected request touches
/// neither the store nor the upstream.
pub fn screen_token(header: TokenHeader) -> (r: Result<FigmaToken, TokenError>)
    ensures
        match header {
            TokenHeader::Missing => r == Err::<FigmaToken, TokenError>(TokenError::Missing),
            TokenHeader::Unreadable => r == Err::<FigmaToken, TokenError>(TokenError::Invalid),
            TokenHeader::Value(s) => r == Ok::<FigmaToken, TokenError>(FigmaToken(s)),
        },
{
    match header {
        TokenHeader::Missing => Err(TokenError::Missing),
        TokenHeader::Unreadable => Err(TokenError::Invalid),
        TokenHeader::Value(s) => Ok(FigmaToken(s)),
    }
}

} // verus!
