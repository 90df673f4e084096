//! The compute side of the HTTP boundary: required-parameter checks,
//! the node-endpoint URL, the echo reply, and the JSON envelope every
//! response is wrapped in. The HTTP layer itself lives outside the
//! library and hands these functions plain values.

use vstd::prelude::*;
use vstd::string::StringExecFns;
use crate::errors::FigmaServiceError;
use crate::model::FigmaFileQuery;

verus! {

/// Query parameters of the file endpoint, every one optional until
/// checked.
pub struct FileParams {
    pub file_key: Option<String>,
    pub version: Option<String>,
    pub ids: Option<String>,
    pub depth: Option<String>,
    pub geometry: Option<String>,
    pub plugin_data: Option<String>,
    pub branch_data: Option<String>,
}

/// Query parameters of the node endpoint.
pub struct NodeParams {
    pub file_key: Option<String>,
    pub ids: Option<String>,
}

/// The body of an echo request.
pub struct EchoRequest {
    pub message: Option<String>,
}

/// The JSON envelope every response is wrapped in.
pub struct ApiResponse<T> {
    pub message: String,
    pub status: String,
    pub data: Option<T>,
}

/// A success envelope around `data`.
pub fn ok_response<T>(message: String, data: Option<T>) -> (r: ApiResponse<T>)
    ensures
        r.message == message,
        r.status@ == "success"@,
        r.data == data,
{
    ApiResponse { message, status: "success".to_owned(), data }
}

/// An error envelope; it never carries data.
pub fn error_response<T>(message: String) -> (r: ApiResponse<T>)
    ensures
        r.message == message,
        r.status@ == "error"@,
        r.data is None,
{
    ApiResponse { message, status: "error".to_owned(), data: None }
}

/// The reply to an echo request: the message sent, or a fixed note
/// when none was.
pub fn echo_message(request: &EchoRequest) -> (r: String)
    ensures
        match request.message {
            Some(m) => r@ == m@,
            None => r@ == "No message provided"@,
        },
{
    match &request.message {
        Some(m) => m.clone(),
        None => "No message provided".to_owned(),
    }
}

/// Check the file endpoint's parameters: the file key is required and
/// its absence is a missing-parameter error naming `file_key`; every
/// filter is passed through as supplied.
pub fn file_query(params: FileParams) -> (r: Result<FigmaFileQuery, FigmaServiceError>)
    ensures
        match params.file_key {
            Some(key) => r matches Ok(q) && q == (FigmaFileQuery {
                file_key: key,
                version: params.version,
                ids: params.ids,
                depth: params.depth,
                geometry: params.geometry,
                plugin_data: params.plugin_data,
                branch_data: params.branch_data,
            }),
            None => r matches Err(e) && e matches FigmaServiceError::MissingParam(p) && p@
                == "file_key"@,
        },
{
    match params.file_key {
        Some(key) => Ok(
            FigmaFileQuery {
                file_key: key,
                version: params.version,
                ids: params.ids,
                depth: params.depth,
                geometry: params.geometry,
                plugin_data: params.plugin_data,
                branch_data: params.branch_data,
            },
        ),
        None => Err(FigmaServiceError::MissingParam("file_key".to_owned())),
    }
}

/// Check the node endpoint's parameters: the file key first, then the
/// node ids, each absence a missing-parameter error naming the field.
pub fn node_request(params: NodeParams) -> (r: Result<(String, String), FigmaServiceError>)
    ensures
        match (params.file_key, params.ids) {
            (Some(key), Some(ids)) => r == Ok::<(String, String), FigmaServiceError>((key, ids)),
            (None, _) => r matches Err(e) && e matches FigmaServiceError::MissingParam(p) && p@
                == "file_key"@,
            (Some(_), None) => r matches Err(e) && e matches FigmaServiceError::MissingParam(p)
                && p@ == "ids"@,
        },
{
    match (params.file_key, params.ids) {
        (Some(key), Some(ids)) => Ok((key, ids)),
        (None, _) => Err(FigmaServiceError::MissingParam("file_key".to_owned())),
        (Some(_), None) => Err(FigmaServiceError::MissingParam("ids".to_owned())),
    }
}

/// The URL of the node endpoint for a file key.
pub open spec fn spec_node_url(file_key: Seq<char>) -> Seq<char> {
    "https://api.figma.com/v1/files/"@ + file_key + "/nodes"@
}

/// Build the node-endpoint URL for a file key.
pub fn node_url(file_key: &str) -> (r: String)
    ensures
        r@ == spec_node_url(file_key@),
{
    "https://api.figma.com/v1/files/".to_owned().concat(file_key).concat("/nodes")
}

} // verus!
