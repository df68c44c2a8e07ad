//! Values exchanged with the service.

pub mod api_types;
pub mod http_api;
pub mod id_types;
pub mod protocol;
pub mod token;
pub mod wire;

use crate::text::{debug_text, str_debug};
use vstd::prelude::*;
use vstd::string::StringExecFns;

verus! {

/// An error that the service reports: a code, and the identifier under which
/// the service recorded the failure, if it recorded one.
#[derive(Debug, Clone, PartialEq)]
pub struct ApiErrorResponse {
    pub code: String,
    pub id: Option<String>,
}

/// An `ApiErrorResponse` as a mathematical value.
pub struct ApiErrorResponseView {
    pub code: Seq<char>,
    pub id: Option<Seq<char>>,
}

impl View for ApiErrorResponse {
    type V = ApiErrorResponseView;

    open spec fn view(&self) -> ApiErrorResponseView {
        ApiErrorResponseView {
            code: self.code@,
            id: match self.id {
                Some(id) => Some(id@),
                None => None,
            },
        }
    }
}

/// An error report in words: the code as it is, and the identifier in the
/// form in which `Debug` writes an optional string.
pub open spec fn api_error_text(error: ApiErrorResponseView) -> Seq<char> {
    "Api error: { code: "@ + error.code + ", id: "@ + (match error.id {
        Some(id) => "Some("@ + debug_text(id) + ")"@,
        None => "None"@,
    }) + " }"@
}

impl ApiErrorResponse {
    /// The error report in words.
    pub fn to_string(&self) -> (r: String)
        ensures
            r@ == api_error_text(self@),
    {
        let mut text = "Api error: { code: ".to_owned();
        text.append(self.code.as_str());
        text.append(", id: ");
        match &self.id {
            Some(id) => {
                text.append("Some(");
                let quoted = str_debug(id.as_str());
                text.append(quoted.as_str());
                text.append(")");
            },
            None => {
                text.append("None");
            },
        }
        text.append(" }");
        assert(text@ =~= api_error_text(self@));
        text
    }
}

} // verus!
