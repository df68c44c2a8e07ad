//! Instructions and their results.

use super::id_types::InstructionSeq;
use crate::json::{json_model, JsonValue};
use vstd::prelude::*;

verus! {

/// Seconds that an instruction may run where the caller names no limit.
pub const DEFAULT_INSTRUCTION_TIMEOUT_SECONDS: i32 = 15;

/// The time limit of an instruction that names none.
pub fn default_timeout_seconds() -> (r: i32)
    ensures
        r == DEFAULT_INSTRUCTION_TIMEOUT_SECONDS,
{
    DEFAULT_INSTRUCTION_TIMEOUT_SECONDS
}

/// One unit of code to execute, with the seconds it may run.
#[derive(Debug, Clone, PartialEq)]
pub struct Instruction {
    pub code: String,
    pub timeout_seconds: i32,
}

/// An `Instruction` as a mathematical value.
pub struct InstructionView {
    pub code: Seq<char>,
    pub timeout_seconds: i32,
}

impl View for Instruction {
    type V = InstructionView;

    open spec fn view(&self) -> InstructionView {
        InstructionView { code: self.code@, timeout_seconds: self.timeout_seconds }
    }
}

impl Instruction {
    /// An instruction that runs `code` under the default time limit.
    pub fn new(code: &str) -> (r: Instruction)
        ensures
            r@ == (InstructionView {
                code: code@,
                timeout_seconds: DEFAULT_INSTRUCTION_TIMEOUT_SECONDS,
            }),
    {
        Instruction { code: code.to_owned(), timeout_seconds: DEFAULT_INSTRUCTION_TIMEOUT_SECONDS }
    }
}

/// How an instruction ended: with an error message, or with a value that may
/// have a textual form and a structured payload.
#[derive(Debug, Clone, PartialEq)]
pub enum ExecResultType {
    Error { error: String },
    Value { value: Option<String>, data: Option<serde_json::Value> },
}

/// An `ExecResultType` as a mathematical value.
pub enum ExecResultTypeView {
    Error { error: Seq<char> },
    Value { value: Option<Seq<char>>, data: Option<JsonValue> },
}

impl View for ExecResultType {
    type V = ExecResultTypeView;

    open spec fn view(&self) -> ExecResultTypeView {
        match *self {
            ExecResultType::Error { error } => ExecResultTypeView::Error { error: error@ },
            ExecResultType::Value { value, data } => ExecResultTypeView::Value {
                value: match value {
                    Some(text) => Some(text@),
                    None => None,
                },
                data: match data {
                    Some(payload) => Some(json_model(payload)),
                    None => None,
                },
            },
        }
    }
}

/// The outcome of one instruction and the milliseconds it ran.
#[derive(Debug, Clone, PartialEq)]
pub struct ExecResult {
    pub result: ExecResultType,
    pub runtime_ms: u64,
}

/// An `ExecResult` as a mathematical value.
pub struct ExecResultView {
    pub result: ExecResultTypeView,
    pub runtime_ms: u64,
}

impl View for ExecResult {
    type V = ExecResultView;

    open spec fn view(&self) -> ExecResultView {
        ExecResultView { result: self.result@, runtime_ms: self.runtime_ms }
    }
}

/// The result of the instruction with the given sequence number.
#[derive(Debug, Clone, PartialEq)]
pub struct ApiExecResultResponse {
    pub instruction_id: InstructionSeq,
    pub result: ExecResult,
}

/// An `ApiExecResultResponse` as a mathematical value.
pub struct ApiExecResultResponseView {
    pub instruction_id: InstructionSeq,
    pub result: ExecResultView,
}

impl View for ApiExecResultResponse {
    type V = ApiExecResultResponseView;

    open spec fn view(&self) -> ApiExecResultResponseView {
        ApiExecResultResponseView { instruction_id: self.instruction_id, result: self.result@ }
    }
}

} // verus!
