//! The error taxonomy of the service layer.

use vstd::prelude::*;
use crate::text::str_eq;

verus! {

/// Everything that can go wrong while resolving a file request.
///
/// Each variant carries a human-readable detail string; no variant ever
/// carries internal connection details.
#[derive(Debug)]
pub enum FigmaServiceError {
    /// The upstream API answered with a non-success status; the payload
    /// holds the status and the body text verbatim.
    ApiError(String),
    /// The document store failed (connectivity or constraint violation).
    DbError(String),
    /// The outbound request itself failed (transport error).
    RequestError(String),
    /// A required lookup field was absent; the payload names the field.
    MissingParam(String),
    /// A body that should have been structured JSON failed to parse.
    JsonError(String),
}

impl FigmaServiceError {
    /// The detail string carried by the error, whatever its class.
    pub open spec fn spec_detail(&self) -> Seq<char> {
        match self {
            FigmaServiceError::ApiError(s) => s@,
            FigmaServiceError::DbError(s) => s@,
            FigmaServiceError::RequestError(s) => s@,
            FigmaServiceError::MissingParam(s) => s@,
            FigmaServiceError::JsonError(s) => s@,
        }
    }

    /// The detail string carried by the error, whatever its class.
    pub fn detail(&self) -> (r: &String)
        ensures
            r@ == self.spec_detail(),
    {
        match self {
            FigmaServiceError::ApiError(s) => s,
            FigmaServiceError::DbError(s) => s,
            FigmaServiceError::RequestError(s) => s,
            FigmaServiceError::MissingParam(s) => s,
            FigmaServiceError::JsonError(s) => s,
        }
    }

    /// The class prefix used when rendering the error for a caller.
    pub open spec fn spec_prefix(&self) -> Seq<char> {
        match self {
            FigmaServiceError::ApiError(_) => "Figma API Error: "@,
            FigmaServiceError::DbError(_) => "Database Error: "@,
            FigmaServiceError::RequestError(_) => "Request Error: "@,
            FigmaServiceError::MissingParam(_) => "Missing required parameter: "@,
            FigmaServiceError::JsonError(_) => "JSON parsing error: "@,
        }
    }

    /// Render the error as `"<class prefix><detail>"`.
    pub fn message(&self) -> (r: String)
        ensures
            r@ == self.spec_prefix() + self.spec_detail(),
    {
        let prefix: &str = match self {
            FigmaServiceError::ApiError(_) => "Figma API Error: ",
            FigmaServiceError::DbError(_) => "Database Error: ",
            FigmaServiceError::RequestError(_) => "Request Error: ",
            FigmaServiceError::MissingParam(_) => "Missing required parameter: ",
            FigmaServiceError::JsonError(_) => "JSON parsing error: ",
        };
        prefix.to_owned().concat(self.detail().as_str())
    }

    /// The HTTP status an error maps to: 400 for missing or malformed
    /// input, 401 when the missing input is the credential header,
    /// 500 for storage failure, 502 for upstream failure.
    pub open spec fn spec_http_status(&self) -> u16 {
        match self {
            FigmaServiceError::ApiError(_) => 502,
            FigmaServiceError::DbError(_) => 500,
            FigmaServiceError::RequestError(_) => 502,
            FigmaServiceError::MissingParam(p) => if p@ == "X-Figma-Token"@ {
                401
            } else {
                400
            },
            FigmaServiceError::JsonError(_) => 502,
        }
    }

    /// The HTTP status code this error maps to at the service boundary.
    pub fn http_status(&self) -> (r: u16)
        ensures
            r == self.spec_http_status(),
    {
        match self {
            FigmaServiceError::ApiError(_) => 502,
            FigmaServiceError::DbError(_) => 500,
            FigmaServiceError::RequestError(_) => 502,
            FigmaServiceError::MissingParam(p) => {
                if str_eq(p.as_str(), "X-Figma-Token") {
                    401
                } else {
                    400
                }
            },
            FigmaServiceError::JsonError(_) => 502,
        }
    }
}

} // verus!
