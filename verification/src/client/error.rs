//! Failures that a caller can see.

use super::http::{url_error_text, url_error_to_string};
use crate::api::wire::{decode_error_text, DecodeError};
use crate::api::{api_error_text, ApiErrorResponse};
use crate::text::{decimal_digits, push_decimal_u64};
use vstd::prelude::*;
use vstd::string::StringExecFns;

verus! {

/// Why an operation of the client failed.
#[derive(Debug)]
pub enum ClientError {
    /// The service reported an error.
    ApiError(ApiErrorResponse),
    /// The service answered with a status that is no success and a body that is
    /// no error report.
    ServerResponseError { code: u16, message: String },
    /// The address of the service cannot be turned into the address of a session.
    InvalidUrl,
    /// The address of a session cannot be put together.
    UrlError(url::ParseError),
    /// A frame, a line or a body is not what it was taken for.
    DeserializeError(DecodeError),
    /// The connection or the session ended before the instruction was answered.
    InstructionInterrupted,
    /// Anything else, in words.
    Other(String),
}

/// A failure in words.
pub open spec fn client_error_text(error: ClientError) -> Seq<char> {
    match error {
        ClientError::ApiError(report) => "Api error: "@ + api_error_text(report@),
        ClientError::ServerResponseError { code, message } => "Server responded with code "@
            + decimal_digits(code as nat) + " and message "@ + message@,
        ClientError::InvalidUrl => "Invalid URL"@,
        ClientError::UrlError(inner) => "Error parsing url: "@ + url_error_text(inner),
        ClientError::DeserializeError(inner) => "Error deserializing response: "@
            + decode_error_text(inner),
        ClientError::InstructionInterrupted => "Instruction interrupted"@,
        ClientError::Other(text) => "Other error: "@ + text@,
    }
}

impl ClientError {
    /// The failure in words.
    pub fn to_string(&self) -> (r: String)
        ensures
            r@ == client_error_text(*self),
    {
        match self {
            ClientError::ApiError(report) => {
                let mut text = "Api error: ".to_owned();
                let inner = report.to_string();
                text.append(inner.as_str());
                text
            },
            ClientError::ServerResponseError { code, message } => {
                let mut text = "Server responded with code ".to_owned();
                push_decimal_u64(&mut text, *code as u64);
                text.append(" and message ");
                text.append(message.as_str());
                text
            },
            ClientError::InvalidUrl => "Invalid URL".to_owned(),
            ClientError::UrlError(inner) => {
                let mut text = "Error parsing url: ".to_owned();
                let words = url_error_to_string(inner);
                text.append(words.as_str());
                text
            },
            ClientError::DeserializeError(inner) => {
                let mut text = "Error deserializing response: ".to_owned();
                let words = inner.to_string();
                text.append(words.as_str());
                text
            },
            ClientError::InstructionInterrupted => "Instruction interrupted".to_owned(),
            ClientError::Other(message) => {
                let mut text = "Other error: ".to_owned();
                text.append(message.as_str());
                text
            },
        }
    }
}

} // verus!
