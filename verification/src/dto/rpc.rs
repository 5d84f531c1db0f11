//! The JSON-RPC envelope, logins and errors of the exchange.

use crate::error::ClientError;
use vstd::prelude::*;
use vstd::string::StringExecFns;

verus! {

/// A JSON-RPC request.
#[derive(Debug, Clone)]
pub struct JsonRpcRequest<T> {
    pub jsonrpc: String,
    pub method: String,
    pub params: T,
    pub id: i32,
}

/// A JSON-RPC response.
#[derive(Debug, Clone)]
pub struct JsonRpcResponse<T> {
    pub jsonrpc: String,
    pub result: Option<T>,
    pub error: Option<ApiError>,
    pub id: i32,
}

impl<T> JsonRpcResponse<T> {
    /// The result of a response. A response without one is an error, whatever else it holds.
    pub fn into_result(self) -> (outcome: Result<T, ClientError>)
        ensures
            match self.result {
                Some(result) => outcome matches Ok(value) && value == result,
                None => outcome matches Err(ClientError::NoResult { error }) && error
                    == self.error,
            },
    {
        match self.result {
            Some(result) => Ok(result),
            None => Err(ClientError::NoResult { error: self.error }),
        }
    }
}

/// A login by name and password.
#[derive(Debug, Clone)]
pub struct LoginRequest {
    pub username: String,
    pub password: String,
}

/// The answer to a certificate login.
#[derive(Debug, Clone)]
pub struct LoginResponse {
    pub session_token: String,
    pub login_status: String,
}

/// The answer to a certificate login, in its other form.
#[derive(Debug, Clone)]
pub struct CertLoginResponse {
    pub session_token: String,
    pub login_status: String,
}

/// The answer to an interactive login.
#[derive(Debug, Clone)]
pub struct InteractiveLoginResponse {
    pub session_token: Option<String>,
    pub token: Option<String>,
    pub login_status: Option<String>,
    pub status: Option<String>,
    pub status_code: Option<String>,
    pub error: Option<String>,
    pub error_details: Option<String>,
}

/// An error that the exchange reports.
#[derive(Debug, Clone)]
pub struct ApiError {
    pub code: String,
    pub message: String,
}

/// The JSON value that stands where an error code should.
#[derive(Debug, Clone)]
pub enum ErrorCodeValue {
    /// A string.
    Text(String),
    /// A number, in its JSON notation.
    Number(String),
    /// Any other value, in its JSON notation.
    Other(String),
}

/// Reads an error code: a string stands for itself and a number for its notation. Any other
/// value is refused, with the wording of the refusal.
pub fn deserialize_error_code(value: ErrorCodeValue) -> (code: Result<String, String>)
    ensures
        match value {
            ErrorCodeValue::Text(text) => code matches Ok(code) && code@ == text@,
            ErrorCodeValue::Number(text) => code matches Ok(code) && code@ == text@,
            ErrorCodeValue::Other(json) => code matches Err(refusal) && refusal@
                == "unexpected type for Betfair API error code: "@ + json@,
        },
{
    match value {
        ErrorCodeValue::Text(text) => Ok(text),
        ErrorCodeValue::Number(text) => Ok(text),
        ErrorCodeValue::Other(json) => {
            let mut refusal = "unexpected type for Betfair API error code: ".to_string();
            refusal.append(json.as_str());
            Err(refusal)
        },
    }
}

} // verus!
