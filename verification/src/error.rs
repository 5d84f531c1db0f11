//! What can go wrong, and how it is worded.

use crate::dto::rpc::ApiError;
use crate::text::{debug_form, debug_text};
use vstd::prelude::*;
use vstd::string::StringExecFns;

verus! {

/// Why a call did not succeed.
#[derive(Debug)]
pub enum ClientError {
    /// There is no session token.
    NotLoggedIn,
    /// A text cannot stand as the value of a header.
    InvalidHeader { error: String },
    /// The certificate file could not be read.
    PemUnreadable { path: String, error: String },
    /// The certificate file holds no identity.
    PemInvalid { error: String },
    /// The answer to a certificate login is not what it should be.
    LoginUnreadable { error: String, body: String },
    /// An interactive login was answered with a status other than success.
    InteractiveStatus { status: String, body: String },
    /// An interactive login was refused.
    InteractiveRefused { status: String, reason: String },
    /// An interactive login brought no session token.
    MissingToken,
    /// A call was answered with a status other than success.
    ApiStatus { status: String, body: String },
    /// A call was answered without a result.
    NoResult { error: Option<ApiError> },
    /// An answer is not the JSON that it should be.
    Json { error: String },
    /// A request could not be sent, or its answer not be received.
    Transport { error: String },
    /// There is no streaming client yet.
    StreamingNotInitialized,
    /// Streaming was started without a session token.
    SessionTokenNotSet,
    /// Streaming has not been started.
    StreamingNotStarted,
    /// There is no market to subscribe to.
    EmptyMarketList,
    /// A command could not be handed to the streaming task.
    CommandNotSent { error: String },
    /// The first connection to the stream failed.
    ConnectionFailed { error: String },
    /// The first connection to the stream offered no way to send messages.
    NoMessageSender,
    /// The streaming task ended before it was ready.
    NoReadySignal,
}

/// The `Debug` form of an optional error of the exchange.
pub open spec fn api_error_form(error: Option<ApiError>) -> Seq<char> {
    match error {
        Some(error) => "Some(ApiError { code: "@ + debug_form(error.code@) + ", message: "@
            + debug_form(error.message@) + " })"@,
        None => "None"@,
    }
}

impl ClientError {
    /// The wording of an error.
    pub open spec fn wording(self) -> Seq<char> {
        match self {
            ClientError::NotLoggedIn => "Not logged in"@,
            ClientError::InvalidHeader { error } => error@,
            ClientError::PemUnreadable { path, error } => "Failed to read PEM file "@ + path@
                + ": "@ + error@,
            ClientError::PemInvalid { error } => "Failed to parse PEM identity: "@ + error@,
            ClientError::LoginUnreadable { error, body } =>
                "Failed to deserialize login response: "@ + error@ + "\nResponse body: "@ + body@,
            ClientError::InteractiveStatus { status, body } =>
                "Interactive login failed with status "@ + status@ + ": "@ + body@,
            ClientError::InteractiveRefused { status, reason } => "Interactive login "@ + status@
                + ": "@ + reason@,
            ClientError::MissingToken =>
                "Interactive login response did not include a session token"@,
            ClientError::ApiStatus { status, body } => "API request failed with status "@ + status@
                + ": "@ + body@,
            ClientError::NoResult { error } => "No result in response: "@ + api_error_form(error),
            ClientError::Json { error } => error@,
            ClientError::Transport { error } => error@,
            ClientError::StreamingNotInitialized =>
                "Streaming client not initialized. Call login() first."@,
            ClientError::SessionTokenNotSet =>
                "Session token not set. Call set_session_token() first."@,
            ClientError::StreamingNotStarted => "Streaming client not started"@,
            ClientError::EmptyMarketList => "Cannot subscribe to empty market list"@,
            ClientError::CommandNotSent { error } => "Failed to send subscription command: "@
                + error@,
            ClientError::ConnectionFailed { error } => "Connection failed: "@ + error@,
            ClientError::NoMessageSender => "Message sender not available"@,
            ClientError::NoReadySignal => "Failed to receive ready signal"@,
        }
    }

    /// Words an error.
    pub fn message(&self) -> (text: String)
        ensures
            text@ == self.wording(),
    {
        match self {
            ClientError::NotLoggedIn => "Not logged in".to_string(),
            ClientError::InvalidHeader { error } => error.clone(),
            ClientError::PemUnreadable { path, error } => {
                let mut text = "Failed to read PEM file ".to_string();
                text.append(path.as_str());
                text.append(": ");
                text.append(error.as_str());
                text
            },
            ClientError::PemInvalid { error } => {
                let mut text = "Failed to parse PEM identity: ".to_string();
                text.append(error.as_str());
                text
            },
            ClientError::LoginUnreadable { error, body } => {
                let mut text = "Failed to deserialize login response: ".to_string();
                text.append(error.as_str());
                text.append("\nResponse body: ");
                text.append(body.as_str());
                text
            },
            ClientError::InteractiveStatus { status, body } => {
                let mut text = "Interactive login failed with status ".to_string();
                text.append(status.as_str());
                text.append(": ");
                text.append(body.as_str());
                text
            },
            ClientError::InteractiveRefused { status, reason } => {
                let mut text = "Interactive login ".to_string();
                text.append(status.as_str());
                text.append(": ");
                text.append(reason.as_str());
                text
            },
            ClientError::MissingToken => {
                "Interactive login response did not include a session token".to_string()
            },
            ClientError::ApiStatus { status, body } => {
                let mut text = "API request failed with status ".to_string();
                text.append(status.as_str());
                text.append(": ");
                text.append(body.as_str());
                text
            },
            ClientError::NoResult { error } => {
                let mut text = "No result in response: ".to_string();
                match error {
                    Some(error) => {
                        text.append("Some(ApiError { code: ");
                        text.append(debug_text(error.code.as_str()).as_str());
                        text.append(", message: ");
                        text.append(debug_text(error.message.as_str()).as_str());
                        text.append(" })");
                    },
                    None => {
                        text.append("None");
                    },
                }
                proof {
                    assert(text@ =~= self.wording());
                }
                text
            },
            ClientError::Json { error } => error.clone(),
            ClientError::Transport { error } => error.clone(),
            ClientError::StreamingNotInitialized => {
                "Streaming client not initialized. Call login() first.".to_string()
            },
            ClientError::SessionTokenNotSet => {
                "Session token not set. Call set_session_token() first.".to_string()
            },
            ClientError::StreamingNotStarted => "Streaming client not started".to_string(),
            ClientError::EmptyMarketList => "Cannot subscribe to empty market list".to_string(),
            ClientError::CommandNotSent { error } => {
                let mut text = "Failed to send subscription command: ".to_string();
                text.append(error.as_str());
                text
            },
            ClientError::ConnectionFailed { error } => {
                let mut text = "Connection failed: ".to_string();
                text.append(error.as_str());
                text
            },
            ClientError::NoMessageSender => "Message sender not available".to_string(),
            ClientError::NoReadySignal => "Failed to receive ready signal".to_string(),
        }
    }
}

} // verus!
