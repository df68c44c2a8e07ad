//! The wire form of messages.
//!
//! Every frame of the socket, and every line of a result stream, is one JSON
//! object. A message is a tagged union: the member `type` names the variant and
//! the other members are its fields. Members that a variant does not know are
//! skipped. What is JSON and what is not is decided by the `json` module; this
//! module holds the schema.

use super::api_types::{
    default_timeout_seconds, ApiExecResultResponse, ApiExecResultResponseView, ExecResult,
    ExecResultType, ExecResultTypeView, ExecResultView, Instruction, InstructionView,
    DEFAULT_INSTRUCTION_TIMEOUT_SECONDS,
};
use super::id_types::{InstructionSeq, MachineName, MachineOutputSeq, RequestSeq};
use super::protocol::{
    MessageFromServer, MessageFromServerView, MessageLevel, MessageToServer, MessageToServerView,
    StandardOutput, StandardOutputStream, StandardOutputView,
};
use super::{ApiErrorResponse, ApiErrorResponseView};
use crate::json::{
    json_error_text, json_error_to_string, json_model, json_parse, json_print, map_insert, map_new, parse_value, print_value,
    value_as_i64, value_as_str, value_as_u64, value_clone, value_from_i64, value_from_str,
    value_from_u64, value_get, value_is_null, value_object, JsonValue,
};
use crate::text::str_eq;
use vstd::prelude::*;
use vstd::string::StringExecFns;

verus! {

/// Why a text is not the message it was taken for.
#[derive(Debug)]
pub enum DecodeError {
    /// `serde_json` refused: the text is no JSON document, or the document
    /// could not be written.
    Json(serde_json::Error),
    /// A member that the schema requires is absent.
    MissingField { field: &'static str },
    /// A member holds a document of another kind than the schema asks for, or
    /// a number outside the range of its field.
    InvalidField { field: &'static str },
    /// A tag names no variant that the schema knows.
    UnknownVariant { field: &'static str, variant: String },
}

/// A `DecodeError` as a mathematical value. Of what `serde_json` refused it
/// says no more than that.
pub enum DecodeErrorView {
    Json,
    MissingField { field: Seq<char> },
    InvalidField { field: Seq<char> },
    UnknownVariant { field: Seq<char>, variant: Seq<char> },
}

impl View for DecodeError {
    type V = DecodeErrorView;

    open spec fn view(&self) -> DecodeErrorView {
        match *self {
            DecodeError::Json(_) => DecodeErrorView::Json,
            DecodeError::MissingField { field } => DecodeErrorView::MissingField { field: field@ },
            DecodeError::InvalidField { field } => DecodeErrorView::InvalidField { field: field@ },
            DecodeError::UnknownVariant { field, variant } => DecodeErrorView::UnknownVariant {
                field: field@,
                variant: variant@,
            },
        }
    }
}

/// A decoding failure in words.
pub open spec fn decode_error_text(error: DecodeError) -> Seq<char> {
    match error {
        DecodeError::Json(inner) => json_error_text(inner),
        DecodeError::MissingField { field } => "missing field `"@ + field@ + "`"@,
        DecodeError::InvalidField { field } => "invalid value of field `"@ + field@ + "`"@,
        DecodeError::UnknownVariant { field, variant } => "unknown variant `"@ + variant@
            + "` of `"@ + field@ + "`"@,
    }
}

impl DecodeError {
    /// The failure in words.
    pub fn to_string(&self) -> (r: String)
        ensures
            r@ == decode_error_text(*self),
    {
        match self {
            DecodeError::Json(inner) => json_error_to_string(inner),
            DecodeError::MissingField { field } => {
                let mut text = "missing field `".to_owned();
                text.append(field);
                text.append("`");
                text
            },
            DecodeError::InvalidField { field } => {
                let mut text = "invalid value of field `".to_owned();
                text.append(field);
                text.append("`");
                text
            },
            DecodeError::UnknownVariant { field, variant } => {
                let mut text = "unknown variant `".to_owned();
                text.append(variant.as_str());
                text.append("` of `");
                text.append(field);
                text.append("`");
                text
            },
        }
    }
}

/// The result of a decoding as a mathematical value.
pub open spec fn decoded<T: View>(r: Result<T, DecodeError>) -> Result<T::V, DecodeErrorView> {
    match r {
        Ok(value) => Ok(value@),
        Err(error) => Err(error@),
    }
}

/// The result of decoding a number or a tag as a mathematical value.
pub open spec fn decoded_plain<T>(r: Result<T, DecodeError>) -> Result<T, DecodeErrorView> {
    match r {
        Ok(value) => Ok(value),
        Err(error) => Err(error@),
    }
}

/// The member `field`, which has to be there.
pub open spec fn required_member_of(document: JsonValue, field: Seq<char>) -> Result<
    JsonValue,
    DecodeErrorView,
> {
    match document.field(field) {
        Some(member) => Ok(member),
        None => Err(DecodeErrorView::MissingField { field }),
    }
}

/// The text of the member `field`, which has to be there and to be a string.
pub open spec fn required_str_of(document: JsonValue, field: Seq<char>) -> Result<
    Seq<char>,
    DecodeErrorView,
> {
    match document.field(field) {
        None => Err(DecodeErrorView::MissingField { field }),
        Some(member) => match member.as_str() {
            Some(text) => Ok(text),
            None => Err(DecodeErrorView::InvalidField { field }),
        },
    }
}

/// The text of the member `field`, which is a string where it is there and not
/// null.
pub open spec fn optional_str_of(document: JsonValue, field: Seq<char>) -> Result<
    Option<Seq<char>>,
    DecodeErrorView,
> {
    match document.field(field) {
        None => Ok(None),
        Some(member) => if member is Null {
            Ok(None)
        } else {
            match member.as_str() {
                Some(text) => Ok(Some(text)),
                None => Err(DecodeErrorView::InvalidField { field }),
            }
        },
    }
}

/// The member `field`, where it is there and not null.
pub open spec fn optional_member_of(document: JsonValue, field: Seq<char>) -> Option<JsonValue> {
    match document.field(field) {
        None => None,
        Some(member) => if member is Null {
            None
        } else {
            Some(member)
        },
    }
}

/// The number in the member `field`, which has to be there and to be an
/// integer that fits `i64`.
pub open spec fn required_i64_of(document: JsonValue, field: Seq<char>) -> Result<
    i64,
    DecodeErrorView,
> {
    match document.field(field) {
        None => Err(DecodeErrorView::MissingField { field }),
        Some(member) => match member.as_i64() {
            Some(number) => Ok(number),
            None => Err(DecodeErrorView::InvalidField { field }),
        },
    }
}

/// The number in the member `field`, which has to be there and to be an
/// integer that fits `u64`.
pub open spec fn required_u64_of(document: JsonValue, field: Seq<char>) -> Result<
    u64,
    DecodeErrorView,
> {
    match document.field(field) {
        None => Err(DecodeErrorView::MissingField { field }),
        Some(member) => match member.as_u64() {
            Some(number) => Ok(number),
            None => Err(DecodeErrorView::InvalidField { field }),
        },
    }
}

/// The number in the member `field`, which has to be there and to be an
/// integer that fits `u32`.
pub open spec fn required_u32_of(document: JsonValue, field: Seq<char>) -> Result<
    u32,
    DecodeErrorView,
> {
    match required_u64_of(document, field) {
        Err(error) => Err(error),
        Ok(number) => if number <= u32::MAX {
            Ok(number as u32)
        } else {
            Err(DecodeErrorView::InvalidField { field })
        },
    }
}

/// The seconds in the member `timeout_seconds`: the default where the member is
/// absent, else an integer that fits `i32`.
pub open spec fn timeout_seconds_of(document: JsonValue) -> Result<i32, DecodeErrorView> {
    match document.field("timeout_seconds"@) {
        None => Ok(DEFAULT_INSTRUCTION_TIMEOUT_SECONDS),
        Some(member) => match member.as_i64() {
            Some(number) => if i32::MIN <= number <= i32::MAX {
                Ok(number as i32)
            } else {
                Err(DecodeErrorView::InvalidField { field: "timeout_seconds"@ })
            },
            None => Err(DecodeErrorView::InvalidField { field: "timeout_seconds"@ }),
        },
    }
}

/// The instruction that an object holds: `code`, and `timeout_seconds` or the
/// default.
pub open spec fn instruction_of(document: JsonValue) -> Result<InstructionView, DecodeErrorView> {
    match required_str_of(document, "code"@) {
        Err(error) => Err(error),
        Ok(code) => match timeout_seconds_of(document) {
            Err(error) => Err(error),
            Ok(timeout_seconds) => Ok(InstructionView { code, timeout_seconds }),
        },
    }
}

/// The stream that a tag names.
pub open spec fn stream_of(tag: Seq<char>) -> Result<StandardOutputStream, DecodeErrorView> {
    if tag == "stdout"@ {
        Ok(StandardOutputStream::Stdout)
    } else if tag == "stderr"@ {
        Ok(StandardOutputStream::Stderr)
    } else {
        Err(DecodeErrorView::UnknownVariant { field: "stream"@, variant: tag })
    }
}

/// The level that a tag names.
pub open spec fn level_of(tag: Seq<char>) -> Result<MessageLevel, DecodeErrorView> {
    if tag == "info"@ {
        Ok(MessageLevel::Info)
    } else if tag == "warn"@ {
        Ok(MessageLevel::Warn)
    } else if tag == "error"@ {
        Ok(MessageLevel::Error)
    } else {
        Err(DecodeErrorView::UnknownVariant { field: "level"@, variant: tag })
    }
}

/// The output chunk that an object holds: `stream`, `data` and `seq`.
pub open spec fn standard_output_of(document: JsonValue) -> Result<
    StandardOutputView,
    DecodeErrorView,
> {
    match required_str_of(document, "stream"@) {
        Err(error) => Err(error),
        Ok(tag) => match stream_of(tag) {
            Err(error) => Err(error),
            Ok(stream) => match required_str_of(document, "data"@) {
                Err(error) => Err(error),
                Ok(data) => match required_i64_of(document, "seq"@) {
                    Err(error) => Err(error),
                    Ok(seq) => Ok(StandardOutputView { stream, data, seq: MachineOutputSeq(seq) }),
                },
            },
        },
    }
}

/// How an instruction ended, as an object says it: an object with a string
/// member `error` holds an error; any other holds a value, with the optional
/// members `value`, a string, and `data`, any document.
pub open spec fn exec_result_type_of(document: JsonValue) -> Result<
    ExecResultTypeView,
    DecodeErrorView,
> {
    if document.field("error"@) matches Some(member) && member.as_str() is Some {
        Ok(ExecResultTypeView::Error { error: document.field("error"@).unwrap().as_str().unwrap() })
    } else {
        match optional_str_of(document, "value"@) {
            Err(error) => Err(error),
            Ok(value) => Ok(
                ExecResultTypeView::Value { value, data: optional_member_of(document, "data"@) },
            ),
        }
    }
}

/// The result that an object holds: how the instruction ended, and
/// `runtime_ms`.
pub open spec fn exec_result_of(document: JsonValue) -> Result<ExecResultView, DecodeErrorView> {
    match exec_result_type_of(document) {
        Err(error) => Err(error),
        Ok(result) => match required_u64_of(document, "runtime_ms"@) {
            Err(error) => Err(error),
            Ok(runtime_ms) => Ok(ExecResultView { result, runtime_ms }),
        },
    }
}

/// The result of an instruction that an object holds: `instruction_id`, and the
/// result in the member `result`.
pub open spec fn exec_result_response_of(document: JsonValue) -> Result<
    ApiExecResultResponseView,
    DecodeErrorView,
> {
    match required_i64_of(document, "instruction_id"@) {
        Err(error) => Err(error),
        Ok(instruction_id) => match required_member_of(document, "result"@) {
            Err(error) => Err(error),
            Ok(member) => match exec_result_of(member) {
                Err(error) => Err(error),
                Ok(result) => Ok(
                    ApiExecResultResponseView {
                        instruction_id: InstructionSeq(instruction_id),
                        result,
                    },
                ),
            },
        },
    }
}

/// The error report that an object holds: `code`, and `id` where there is one.
pub open spec fn api_error_of(document: JsonValue) -> Result<
    ApiErrorResponseView,
    DecodeErrorView,
> {
    match required_str_of(document, "code"@) {
        Err(error) => Err(error),
        Ok(code) => match optional_str_of(document, "id"@) {
            Err(error) => Err(error),
            Ok(id) => Ok(ApiErrorResponseView { code, id }),
        },
    }
}

/// The fields of a `connected` message.
pub open spec fn connected_of(document: JsonValue) -> Result<
    MessageFromServerView,
    DecodeErrorView,
> {
    match required_str_of(document, "machine_name"@) {
        Err(error) => Err(error),
        Ok(machine_name) => Ok(MessageFromServerView::Connected { machine_name }),
    }
}

/// The fields of an `exec_received` message.
pub open spec fn exec_received_of(document: JsonValue) -> Result<
    MessageFromServerView,
    DecodeErrorView,
> {
    match required_i64_of(document, "seq"@) {
        Err(error) => Err(error),
        Ok(seq) => match required_u32_of(document, "request_id"@) {
            Err(error) => Err(error),
            Ok(request_id) => Ok(
                MessageFromServerView::ExecReceived {
                    seq: InstructionSeq(seq),
                    request_id: RequestSeq(request_id),
                },
            ),
        },
    }
}

/// The fields of an `output` message.
pub open spec fn output_of_json(document: JsonValue) -> Result<
    MessageFromServerView,
    DecodeErrorView,
> {
    match required_member_of(document, "chunk"@) {
        Err(error) => Err(error),
        Ok(member) => match standard_output_of(member) {
            Err(error) => Err(error),
            Ok(chunk) => match required_i64_of(document, "instruction_id"@) {
                Err(error) => Err(error),
                Ok(instruction_id) => Ok(
                    MessageFromServerView::Output {
                        chunk,
                        instruction_id: InstructionSeq(instruction_id),
                    },
                ),
            },
        },
    }
}

/// The fields of a `message` message.
pub open spec fn diagnostic_of(document: JsonValue) -> Result<
    MessageFromServerView,
    DecodeErrorView,
> {
    match required_str_of(document, "message"@) {
        Err(error) => Err(error),
        Ok(message) => match required_str_of(document, "level"@) {
            Err(error) => Err(error),
            Ok(tag) => match level_of(tag) {
                Err(error) => Err(error),
                Ok(level) => Ok(MessageFromServerView::Message { message, level }),
            },
        },
    }
}

/// The message of the service that a document holds. The member `type` has to
/// be one of `connected`, `exec_received`, `result`, `output`, `error` and
/// `message`; any other tag is an unknown variant.
pub open spec fn message_from_server_of(document: JsonValue) -> Result<
    MessageFromServerView,
    DecodeErrorView,
> {
    match required_str_of(document, "type"@) {
        Err(error) => Err(error),
        Ok(tag) => if tag == "connected"@ {
            connected_of(document)
        } else if tag == "exec_received"@ {
            exec_received_of(document)
        } else if tag == "result"@ {
            match exec_result_response_of(document) {
                Err(error) => Err(error),
                Ok(response) => Ok(MessageFromServerView::Result(response)),
            }
        } else if tag == "output"@ {
            output_of_json(document)
        } else if tag == "error"@ {
            match api_error_of(document) {
                Err(error) => Err(error),
                Ok(report) => Ok(MessageFromServerView::Error(report)),
            }
        } else if tag == "message"@ {
            diagnostic_of(document)
        } else {
            Err(DecodeErrorView::UnknownVariant { field: "type"@, variant: tag })
        },
    }
}

/// The message of a client that a document holds. The member `type` has to be
/// `exec`.
pub open spec fn message_to_server_of(document: JsonValue) -> Result<
    MessageToServerView,
    DecodeErrorView,
> {
    match required_str_of(document, "type"@) {
        Err(error) => Err(error),
        Ok(tag) => if tag == "exec"@ {
            match required_member_of(document, "instruction"@) {
                Err(error) => Err(error),
                Ok(member) => match instruction_of(member) {
                    Err(error) => Err(error),
                    Ok(instruction) => match required_u32_of(document, "request_id"@) {
                        Err(error) => Err(error),
                        Ok(request_id) => Ok(
                            MessageToServerView::Exec {
                                instruction,
                                request_id: RequestSeq(request_id),
                            },
                        ),
                    },
                },
            }
        } else {
            Err(DecodeErrorView::UnknownVariant { field: "type"@, variant: tag })
        },
    }
}

/// The object that holds an instruction.
pub open spec fn json_of_instruction(instruction: InstructionView) -> JsonValue {
    JsonValue::Object(
        JsonValue::no_members().insert("code"@, JsonValue::Str(instruction.code)).insert(
            "timeout_seconds"@,
            JsonValue::Int(instruction.timeout_seconds as int),
        ),
    )
}

/// The document that holds a message of a client.
pub open spec fn json_of_message_to_server(message: MessageToServerView) -> JsonValue {
    match message {
        MessageToServerView::Exec { instruction, request_id } => JsonValue::Object(
            JsonValue::no_members().insert("type"@, JsonValue::Str("exec"@)).insert(
                "instruction"@,
                json_of_instruction(instruction),
            ).insert("request_id"@, JsonValue::Int(request_id.0 as int)),
        ),
    }
}

fn required_member<'a>(document: &'a serde_json::Value, field: &'static str) -> (r: Result<
    &'a serde_json::Value,
    DecodeError,
>)
    ensures
        match r {
            Ok(member) => required_member_of(json_model(*document), field@) matches Ok(found)
                && found == json_model(*member),
            Err(error) => required_member_of(json_model(*document), field@) matches Err(e) && e
                == error@,
        },
{
    match value_get(document, field) {
        Some(member) => Ok(member),
        None => Err(DecodeError::MissingField { field }),
    }
}

fn required_str<'a>(document: &'a serde_json::Value, field: &'static str) -> (r: Result<
    &'a str,
    DecodeError,
>)
    ensures
        match r {
            Ok(text) => required_str_of(json_model(*document), field@) matches Ok(found) && found
                == text@,
            Err(error) => required_str_of(json_model(*document), field@) matches Err(e) && e
                == error@,
        },
{
    match value_get(document, field) {
        None => Err(DecodeError::MissingField { field }),
        Some(member) => match value_as_str(member) {
            Some(text) => Ok(text),
            None => Err(DecodeError::InvalidField { field }),
        },
    }
}

fn optional_str(document: &serde_json::Value, field: &'static str) -> (r: Result<
    Option<String>,
    DecodeError,
>)
    ensures
        match r {
            Ok(Some(text)) => optional_str_of(json_model(*document), field@) matches Ok(Some(found))
                && found == text@,
            Ok(None) => optional_str_of(json_model(*document), field@) matches Ok(None),
            Err(error) => optional_str_of(json_model(*document), field@) matches Err(e) && e
                == error@,
        },
{
    match value_get(document, field) {
        None => Ok(None),
        Some(member) => {
            if value_is_null(member) {
                Ok(None)
            } else {
                match value_as_str(member) {
                    Some(text) => Ok(Some(text.to_owned())),
                    None => Err(DecodeError::InvalidField { field }),
                }
            }
        },
    }
}

fn optional_member(document: &serde_json::Value, field: &'static str) -> (r: Option<
    serde_json::Value,
>)
    ensures
        match r {
            Some(member) => optional_member_of(json_model(*document), field@) == Some(
                json_model(member),
            ),
            None => optional_member_of(json_model(*document), field@) is None,
        },
{
    match value_get(document, field) {
        None => None,
        Some(member) => {
            if value_is_null(member) {
                None
            } else {
                Some(value_clone(member))
            }
        },
    }
}

fn required_i64(document: &serde_json::Value, field: &'static str) -> (r: Result<i64, DecodeError>)
    ensures
        decoded_plain(r) == required_i64_of(json_model(*document), field@),
{
    match value_get(document, field) {
        None => Err(DecodeError::MissingField { field }),
        Some(member) => match value_as_i64(member) {
            Some(number) => Ok(number),
            None => Err(DecodeError::InvalidField { field }),
        },
    }
}

fn required_u64(document: &serde_json::Value, field: &'static str) -> (r: Result<u64, DecodeError>)
    ensures
        decoded_plain(r) == required_u64_of(json_model(*document), field@),
{
    match value_get(document, field) {
        None => Err(DecodeError::MissingField { field }),
        Some(member) => match value_as_u64(member) {
            Some(number) => Ok(number),
            None => Err(DecodeError::InvalidField { field }),
        },
    }
}

fn required_u32(document: &serde_json::Value, field: &'static str) -> (r: Result<u32, DecodeError>)
    ensures
        decoded_plain(r) == required_u32_of(json_model(*document), field@),
{
    let number = required_u64(document, field)?;
    if number <= 0xffff_ffff {
        Ok(number as u32)
    } else {
        Err(DecodeError::InvalidField { field })
    }
}

fn timeout_seconds(document: &serde_json::Value) -> (r: Result<i32, DecodeError>)
    ensures
        decoded_plain(r) == timeout_seconds_of(json_model(*document)),
{
    match value_get(document, "timeout_seconds") {
        None => Ok(default_timeout_seconds()),
        Some(member) => match value_as_i64(member) {
            Some(number) => {
                if -0x8000_0000 <= number && number <= 0x7fff_ffff {
                    Ok(number as i32)
                } else {
                    Err(DecodeError::InvalidField { field: "timeout_seconds" })
                }
            },
            None => Err(DecodeError::InvalidField { field: "timeout_seconds" }),
        },
    }
}

/// Reads an instruction from the object that holds it.
pub fn instruction_from_json(document: &serde_json::Value) -> (r: Result<Instruction, DecodeError>)
    ensures
        decoded(r) == instruction_of(json_model(*document)),
{
    let code = required_str(document, "code")?;
    let timeout_seconds = timeout_seconds(document)?;
    Ok(Instruction { code: code.to_owned(), timeout_seconds })
}

fn stream_from_tag(tag: &str) -> (r: Result<StandardOutputStream, DecodeError>)
    ensures
        decoded_plain(r) == stream_of(tag@),
{
    if str_eq(tag, "stdout") {
        Ok(StandardOutputStream::Stdout)
    } else if str_eq(tag, "stderr") {
        Ok(StandardOutputStream::Stderr)
    } else {
        Err(DecodeError::UnknownVariant { field: "stream", variant: tag.to_owned() })
    }
}

fn level_from_tag(tag: &str) -> (r: Result<MessageLevel, DecodeError>)
    ensures
        decoded_plain(r) == level_of(tag@),
{
    if str_eq(tag, "info") {
        Ok(MessageLevel::Info)
    } else if str_eq(tag, "warn") {
        Ok(MessageLevel::Warn)
    } else if str_eq(tag, "error") {
        Ok(MessageLevel::Error)
    } else {
        Err(DecodeError::UnknownVariant { field: "level", variant: tag.to_owned() })
    }
}

/// Reads an output chunk from the object that holds it.
pub fn standard_output_from_json(document: &serde_json::Value) -> (r: Result<
    StandardOutput,
    DecodeError,
>)
    ensures
        decoded(r) == standard_output_of(json_model(*document)),
{
    let tag = required_str(document, "stream")?;
    let stream = stream_from_tag(tag)?;
    let data = required_str(document, "data")?;
    let seq = required_i64(document, "seq")?;
    Ok(StandardOutput { stream, data: data.to_owned(), seq: MachineOutputSeq(seq) })
}

fn exec_result_type_from_json(document: &serde_json::Value) -> (r: Result<
    ExecResultType,
    DecodeError,
>)
    ensures
        decoded(r) == exec_result_type_of(json_model(*document)),
{
    if let Some(member) = value_get(document, "error") {
        if let Some(error) = value_as_str(member) {
            return Ok(ExecResultType::Error { error: error.to_owned() });
        }
    }
    let value = optional_str(document, "value")?;
    let data = optional_member(document, "data");
    Ok(ExecResultType::Value { value, data })
}

/// Reads the result of an instruction from the object that holds it.
pub fn exec_result_from_json(document: &serde_json::Value) -> (r: Result<ExecResult, DecodeError>)
    ensures
        decoded(r) == exec_result_of(json_model(*document)),
{
    let result = exec_result_type_from_json(document)?;
    let runtime_ms = required_u64(document, "runtime_ms")?;
    Ok(ExecResult { result, runtime_ms })
}

/// Reads the answer to a request for the result of an instruction.
pub fn exec_result_response_from_json(document: &serde_json::Value) -> (r: Result<
    ApiExecResultResponse,
    DecodeError,
>)
    ensures
        decoded(r) == exec_result_response_of(json_model(*document)),
{
    let instruction_id = required_i64(document, "instruction_id")?;
    let member = required_member(document, "result")?;
    let result = exec_result_from_json(member)?;
    Ok(ApiExecResultResponse { instruction_id: InstructionSeq(instruction_id), result })
}

/// Reads an error report of the service from the object that holds it.
pub fn api_error_from_json(document: &serde_json::Value) -> (r: Result<
    ApiErrorResponse,
    DecodeError,
>)
    ensures
        decoded(r) == api_error_of(json_model(*document)),
{
    let code = required_str(document, "code")?;
    let id = optional_str(document, "id")?;
    Ok(ApiErrorResponse { code: code.to_owned(), id })
}

fn connected_from_json(document: &serde_json::Value) -> (r: Result<MessageFromServer, DecodeError>)
    ensures
        decoded(r) == connected_of(json_model(*document)),
{
    let machine_name = required_str(document, "machine_name")?;
    Ok(MessageFromServer::Connected { machine_name: MachineName(machine_name.to_owned()) })
}

fn exec_received_from_json(document: &serde_json::Value) -> (r: Result<
    MessageFromServer,
    DecodeError,
>)
    ensures
        decoded(r) == exec_received_of(json_model(*document)),
{
    let seq = required_i64(document, "seq")?;
    let request_id = required_u32(document, "request_id")?;
    Ok(MessageFromServer::ExecReceived { seq: InstructionSeq(seq), request_id: RequestSeq(request_id) })
}

fn output_from_json(document: &serde_json::Value) -> (r: Result<MessageFromServer, DecodeError>)
    ensures
        decoded(r) == output_of_json(json_model(*document)),
{
    let member = required_member(document, "chunk")?;
    let chunk = standard_output_from_json(member)?;
    let instruction_id = required_i64(document, "instruction_id")?;
    Ok(MessageFromServer::Output { chunk, instruction_id: InstructionSeq(instruction_id) })
}

fn diagnostic_from_json(document: &serde_json::Value) -> (r: Result<MessageFromServer, DecodeError>)
    ensures
        decoded(r) == diagnostic_of(json_model(*document)),
{
    let message = required_str(document, "message")?;
    let tag = required_str(document, "level")?;
    let level = level_from_tag(tag)?;
    Ok(MessageFromServer::Message { message: message.to_owned(), level })
}

/// Reads a message of the service from the document that holds it.
pub fn message_from_json(document: &serde_json::Value) -> (r: Result<MessageFromServer, DecodeError>)
    ensures
        decoded(r) == message_from_server_of(json_model(*document)),
{
    let tag = required_str(document, "type")?;
    if str_eq(tag, "connected") {
        connected_from_json(document)
    } else if str_eq(tag, "exec_received") {
        exec_received_from_json(document)
    } else if str_eq(tag, "result") {
        let response = exec_result_response_from_json(document)?;
        Ok(MessageFromServer::Result(response))
    } else if str_eq(tag, "output") {
        output_from_json(document)
    } else if str_eq(tag, "error") {
        let report = api_error_from_json(document)?;
        Ok(MessageFromServer::Error(report))
    } else if str_eq(tag, "message") {
        diagnostic_from_json(document)
    } else {
        Err(DecodeError::UnknownVariant { field: "type", variant: tag.to_owned() })
    }
}

/// Reads a message of a client from the document that holds it.
pub fn message_to_server_from_json(document: &serde_json::Value) -> (r: Result<
    MessageToServer,
    DecodeError,
>)
    ensures
        decoded(r) == message_to_server_of(json_model(*document)),
{
    let tag = required_str(document, "type")?;
    if str_eq(tag, "exec") {
        let member = required_member(document, "instruction")?;
        let instruction = instruction_from_json(member)?;
        let request_id = required_u32(document, "request_id")?;
        Ok(MessageToServer::Exec { instruction, request_id: RequestSeq(request_id) })
    } else {
        Err(DecodeError::UnknownVariant { field: "type", variant: tag.to_owned() })
    }
}

/// Writes an instruction as the object that holds it.
pub fn instruction_to_json(instruction: &Instruction) -> (r: serde_json::Value)
    ensures
        json_model(r) == json_of_instruction(instruction@),
{
    let mut members = map_new();
    map_insert(&mut members, "code".to_owned(), value_from_str(instruction.code.as_str()));
    map_insert(
        &mut members,
        "timeout_seconds".to_owned(),
        value_from_i64(instruction.timeout_seconds as i64),
    );
    value_object(members)
}

/// Writes a message of a client as the document that holds it.
pub fn message_to_json(message: &MessageToServer) -> (r: serde_json::Value)
    ensures
        json_model(r) == json_of_message_to_server(message@),
{
    match message {
        MessageToServer::Exec { instruction, request_id } => {
            let mut members = map_new();
            map_insert(&mut members, "type".to_owned(), value_from_str("exec"));
            map_insert(&mut members, "instruction".to_owned(), instruction_to_json(instruction));
            map_insert(&mut members, "request_id".to_owned(), value_from_u64(request_id.0 as u64));
            value_object(members)
        },
    }
}

/// The text of a frame that carries a message of a client: every message has
/// one, the text that `serde_json` writes for its document.
pub fn encode_message_to_server(message: &MessageToServer) -> (r: Result<String, DecodeError>)
    ensures
        r matches Ok(text) && text@ == json_print(json_of_message_to_server(message@)),
{
    let document = message_to_json(message);
    match print_value(&document) {
        Ok(text) => Ok(text),
        Err(error) => Err(DecodeError::Json(error)),
    }
}

/// What decoding a text comes to: the text has to be JSON, and the document
/// that it holds is then read by `read`.
pub open spec fn decoding_of<V>(
    text: Seq<char>,
    read: spec_fn(JsonValue) -> Result<V, DecodeErrorView>,
) -> Result<V, DecodeErrorView> {
    match json_parse(text) {
        Some(document) => read(document),
        None => Err(DecodeErrorView::Json),
    }
}

/// Reads the message of the service that a frame, or a line of a result
/// stream, carries.
pub fn decode_message_from_server(text: &str) -> (r: Result<MessageFromServer, DecodeError>)
    ensures
        decoded(r) == decoding_of(text@, |document: JsonValue| message_from_server_of(document)),
{
    match parse_value(text) {
        Ok(document) => message_from_json(&document),
        Err(error) => Err(DecodeError::Json(error)),
    }
}

/// Reads the message of a client that a frame carries.
pub fn decode_message_to_server(text: &str) -> (r: Result<MessageToServer, DecodeError>)
    ensures
        decoded(r) == decoding_of(text@, |document: JsonValue| message_to_server_of(document)),
{
    match parse_value(text) {
        Ok(document) => message_to_server_from_json(&document),
        Err(error) => Err(DecodeError::Json(error)),
    }
}

/// Reads the error report that the body of a response carries.
pub fn decode_api_error(text: &str) -> (r: Result<ApiErrorResponse, DecodeError>)
    ensures
        decoded(r) == decoding_of(text@, |document: JsonValue| api_error_of(document)),
{
    match parse_value(text) {
        Ok(document) => api_error_from_json(&document),
        Err(error) => Err(DecodeError::Json(error)),
    }
}

/// Reads the result of an instruction that the body of a response carries.
pub fn decode_exec_result_response(text: &str) -> (r: Result<ApiExecResultResponse, DecodeError>)
    ensures
        decoded(r) == decoding_of(text@, |document: JsonValue| exec_result_response_of(document)),
{
    match parse_value(text) {
        Ok(document) => exec_result_response_from_json(&document),
        Err(error) => Err(DecodeError::Json(error)),
    }
}

/// The names of the members of an `exec` frame and of its instruction differ
/// from one another.
proof fn lemma_exec_member_names()
    ensures
        "type"@ != "instruction"@,
        "type"@ != "request_id"@,
        "instruction"@ != "request_id"@,
        "code"@ != "timeout_seconds"@,
{
    reveal_strlit("type");
    reveal_strlit("instruction");
    reveal_strlit("request_id");
    reveal_strlit("code");
    reveal_strlit("timeout_seconds");
    assert("type"@.len() == 4);
    assert("instruction"@.len() == 11);
    assert("request_id"@.len() == 10);
    assert("code"@.len() == 4);
    assert("timeout_seconds"@.len() == 15);
}

/// Writing a message of a client as a document and reading that document gives
/// the message back: every instruction, with its code and its time limit, and
/// every request number.
pub proof fn lemma_exec_frame_round_trip(message: MessageToServerView)
    ensures
        message_to_server_of(json_of_message_to_server(message)) == Ok::<
            MessageToServerView,
            DecodeErrorView,
        >(message),
{
    lemma_exec_member_names();
    match message {
        MessageToServerView::Exec { instruction, request_id } => {
            let document = json_of_message_to_server(message);
            let inner = json_of_instruction(instruction);
            assert(document.field("type"@) == Some(JsonValue::Str("exec"@)));
            assert(document.field("instruction"@) == Some(inner));
            assert(document.field("request_id"@) == Some(JsonValue::Int(request_id.0 as int)));
            assert(inner.field("code"@) == Some(JsonValue::Str(instruction.code)));
            assert(inner.field("timeout_seconds"@) == Some(
                JsonValue::Int(instruction.timeout_seconds as int),
            ));
            assert(instruction_of(inner) == Ok::<InstructionView, DecodeErrorView>(instruction));
        },
    }
}

} // verus!
