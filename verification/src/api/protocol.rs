//! Messages of the socket protocol.

use super::api_types::{
    ApiExecResultResponse, ApiExecResultResponseView, Instruction, InstructionView,
};
use super::id_types::{InstructionSeq, MachineName, MachineOutputSeq, RequestSeq};
use super::{ApiErrorResponse, ApiErrorResponseView};
use vstd::prelude::*;

verus! {

/// What a client sends.
#[derive(Debug, Clone, PartialEq)]
pub enum MessageToServer {
    /// Asks the machine to run an instruction. The service answers with
    /// `ExecReceived` under the same request number.
    Exec { instruction: Instruction, request_id: RequestSeq },
}

/// A `MessageToServer` as a mathematical value.
pub enum MessageToServerView {
    Exec { instruction: InstructionView, request_id: RequestSeq },
}

impl View for MessageToServer {
    type V = MessageToServerView;

    open spec fn view(&self) -> MessageToServerView {
        match *self {
            MessageToServer::Exec { instruction, request_id } => MessageToServerView::Exec {
                instruction: instruction@,
                request_id,
            },
        }
    }
}

/// Severity of a diagnostic message.
#[derive(Debug, Clone, Copy, PartialEq, Eq, Structural)]
pub enum MessageLevel {
    Info,
    Warn,
    Error,
}

/// The stream that an output chunk was written to.
#[derive(Debug, Clone, Copy, PartialEq, Eq, Structural)]
pub enum StandardOutputStream {
    Stdout,
    Stderr,
}

/// One chunk of the output of an instruction.
#[derive(Debug, Clone, PartialEq)]
pub struct StandardOutput {
    pub stream: StandardOutputStream,
    pub data: String,
    pub seq: MachineOutputSeq,
}

/// A `StandardOutput` as a mathematical value.
pub struct StandardOutputView {
    pub stream: StandardOutputStream,
    pub data: Seq<char>,
    pub seq: MachineOutputSeq,
}

impl View for StandardOutput {
    type V = StandardOutputView;

    open spec fn view(&self) -> StandardOutputView {
        StandardOutputView { stream: self.stream, data: self.data@, seq: self.seq }
    }
}

/// What the service sends.
#[derive(Debug, Clone, PartialEq)]
pub enum MessageFromServer {
    /// Sent once, first, when the connection stands.
    Connected { machine_name: MachineName },
    /// The service accepted the request `request_id` and numbered it `seq`.
    ExecReceived { seq: InstructionSeq, request_id: RequestSeq },
    /// The final result of an instruction.
    Result(ApiExecResultResponse),
    /// One chunk of the output of an instruction.
    Output { chunk: StandardOutput, instruction_id: InstructionSeq },
    /// The service reports a failure.
    Error(ApiErrorResponse),
    /// A log or diagnostic message for the client.
    Message { message: String, level: MessageLevel },
}

/// A `MessageFromServer` as a mathematical value.
pub enum MessageFromServerView {
    Connected { machine_name: Seq<char> },
    ExecReceived { seq: InstructionSeq, request_id: RequestSeq },
    Result(ApiExecResultResponseView),
    Output { chunk: StandardOutputView, instruction_id: InstructionSeq },
    Error(ApiErrorResponseView),
    Message { message: Seq<char>, level: MessageLevel },
}

impl View for MessageFromServer {
    type V = MessageFromServerView;

    open spec fn view(&self) -> MessageFromServerView {
        match *self {
            MessageFromServer::Connected { machine_name } => MessageFromServerView::Connected {
                machine_name: machine_name@,
            },
            MessageFromServer::ExecReceived { seq, request_id } => {
                MessageFromServerView::ExecReceived { seq, request_id }
            },
            MessageFromServer::Result(response) => MessageFromServerView::Result(response@),
            MessageFromServer::Output { chunk, instruction_id } => MessageFromServerView::Output {
                chunk: chunk@,
                instruction_id,
            },
            MessageFromServer::Error(error) => MessageFromServerView::Error(error@),
            MessageFromServer::Message { message, level } => MessageFromServerView::Message {
                message: message@,
                level,
            },
        }
    }
}

} // verus!
