//! The errors of the service and what a client is told of each.

use vstd::prelude::*;

verus! {

/// What can go wrong while a request is served. Each error carries the
/// message for the client.
#[derive(Clone, Debug, PartialEq, Eq)]
pub enum AppError {
    AnalysisError(String),
    InvalidInput(String),
    WebSocketError(String),
    InternalError(String),
    ServiceUnavailable(String),
    Timeout(String),
}

/// HTTP status "bad request".
pub const STATUS_BAD_REQUEST: u16 = 400;

/// HTTP status "request timeout".
pub const STATUS_REQUEST_TIMEOUT: u16 = 408;

/// HTTP status "internal server error".
pub const STATUS_INTERNAL_SERVER_ERROR: u16 = 500;

/// HTTP status "service unavailable".
pub const STATUS_SERVICE_UNAVAILABLE: u16 = 503;

impl AppError {
    /// The message that the error carries.
    pub open spec fn detail(&self) -> Seq<char> {
        match self {
            AppError::AnalysisError(msg) => msg@,
            AppError::InvalidInput(msg) => msg@,
            AppError::WebSocketError(msg) => msg@,
            AppError::InternalError(msg) => msg@,
            AppError::ServiceUnavailable(msg) => msg@,
            AppError::Timeout(msg) => msg@,
        }
    }

    /// The HTTP status that answers a request which ended in the error: a
    /// fault of the request is a bad request, the others have a status of
    /// their own.
    pub open spec fn status(&self) -> u16 {
        match self {
            AppError::AnalysisError(_) => STATUS_BAD_REQUEST,
            AppError::InvalidInput(_) => STATUS_BAD_REQUEST,
            AppError::WebSocketError(_) => STATUS_BAD_REQUEST,
            AppError::InternalError(_) => STATUS_INTERNAL_SERVER_ERROR,
            AppError::ServiceUnavailable(_) => STATUS_SERVICE_UNAVAILABLE,
            AppError::Timeout(_) => STATUS_REQUEST_TIMEOUT,
        }
    }

    /// The words that name the kind of error in its description.
    pub open spec fn label(&self) -> Seq<char> {
        match self {
            AppError::AnalysisError(_) => "Analysis error: "@,
            AppError::InvalidInput(_) => "Invalid input: "@,
            AppError::WebSocketError(_) => "WebSocket error: "@,
            AppError::InternalError(_) => "Internal server error: "@,
            AppError::ServiceUnavailable(_) => "Service unavailable: "@,
            AppError::Timeout(_) => "Timeout: "@,
        }
    }

    /// The HTTP status that answers a request which ended in the error.
    pub fn status_code(&self) -> (code: u16)
        ensures
            code == self.status(),
    {
        match self {
            AppError::AnalysisError(_) => STATUS_BAD_REQUEST,
            AppError::InvalidInput(_) => STATUS_BAD_REQUEST,
            AppError::WebSocketError(_) => STATUS_BAD_REQUEST,
            AppError::InternalError(_) => STATUS_INTERNAL_SERVER_ERROR,
            AppError::ServiceUnavailable(_) => STATUS_SERVICE_UNAVAILABLE,
            AppError::Timeout(_) => STATUS_REQUEST_TIMEOUT,
        }
    }

    /// The message that the error carries.
    pub fn message(&self) -> (msg: &String)
        ensures
            msg@ == self.detail(),
    {
        match self {
            AppError::AnalysisError(msg) => msg,
            AppError::InvalidInput(msg) => msg,
            AppError::WebSocketError(msg) => msg,
            AppError::InternalError(msg) => msg,
            AppError::ServiceUnavailable(msg) => msg,
            AppError::Timeout(msg) => msg,
        }
    }

    /// The error in words: the name of its kind, then its message.
    pub fn describe(&self) -> (text: String)
        ensures
            text@ == self.label() + self.detail(),
    {
        let label = match self {
            AppError::AnalysisError(_) => "Analysis error: ",
            AppError::InvalidInput(_) => "Invalid input: ",
            AppError::WebSocketError(_) => "WebSocket error: ",
            AppError::InternalError(_) => "Internal server error: ",
            AppError::ServiceUnavailable(_) => "Service unavailable: ",
            AppError::Timeout(_) => "Timeout: ",
        };
        let mut text = String::from_str(label);
        text.append(self.message().as_str());
        text
    }

    /// The two parts of the answer to a request which ended in the error:
    /// its HTTP status and its message.
    pub fn into_parts(self) -> (parts: (u16, String))
        ensures
            parts.0 == self.status(),
            parts.1@ == self.detail(),
    {
        let code: u16 = self.status_code();
        let msg = match self {
            AppError::AnalysisError(msg) => msg,
            AppError::InvalidInput(msg) => msg,
            AppError::WebSocketError(msg) => msg,
            AppError::InternalError(msg) => msg,
            AppError::ServiceUnavailable(msg) => msg,
            AppError::Timeout(msg) => msg,
        };
        (code, msg)
    }
}

} // verus!
