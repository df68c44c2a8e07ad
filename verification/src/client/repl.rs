//! The session state machine.
//!
//! A session has at most one instruction in flight. The client numbers each
//! execute request; the service acknowledges the request under that number and
//! assigns the instruction its sequence number; output chunks and the final
//! result then arrive under the instruction's number. `handle_message` decides,
//! for each message from the service, how the state changes and what the
//! driver of the session has to do.

use super::error::ClientError;
use crate::api::api_types::{
    ExecResult, Instruction, InstructionView, DEFAULT_INSTRUCTION_TIMEOUT_SECONDS,
};
use crate::api::id_types::{InstructionSeq, MachineName, RequestSeq};
use crate::api::protocol::{MessageFromServer, MessageLevel, MessageToServer, StandardOutput};
use crate::api::wire::DecodeError;
use std::collections::VecDeque;
use vstd::prelude::*;

verus! {

/// The numbers that a generator hands out in its next `calls` calls, where
/// `upcoming` is the first of them.
pub open spec fn numbers_handed_out(upcoming: u32, calls: nat) -> Seq<int> {
    Seq::new(calls, |i: int| upcoming + i)
}

/// Source of request numbers: each one is handed out once, in increasing
/// order. The numbers are 32 bits wide on the wire; the largest of them is
/// never handed out, and a generator that has reached it is exhausted.
#[derive(Debug)]
pub struct RequestSeqGenerator {
    next: u32,
}

impl RequestSeqGenerator {
    /// The number that the next call of `next` returns.
    pub closed spec fn upcoming(&self) -> u32 {
        self.next
    }

    /// A generator that starts at zero.
    pub fn new() -> (r: RequestSeqGenerator)
        ensures
            r.upcoming() == 0,
    {
        RequestSeqGenerator { next: 0 }
    }

    /// Whether every number has been handed out: `next` can be called as long
    /// as this is not so.
    pub fn is_exhausted(&self) -> (r: bool)
        ensures
            r == (self.upcoming() == u32::MAX),
    {
        self.next == u32::MAX
    }

    /// Hands out the upcoming number and moves on to the next one, so that
    /// every later call returns a larger number.
    pub fn next(&mut self) -> (r: RequestSeq)
        requires
            old(self).upcoming() < u32::MAX,
        ensures
            r.0 == old(self).upcoming(),
            final(self).upcoming() == r.0 + 1,
    {
        let r = self.next;
        self.next = r + 1;
        RequestSeq(r)
    }
}

/// No request number is handed out twice: the numbers of any run of calls
/// increase strictly, so any two of them differ.
pub proof fn lemma_request_numbers_never_repeat(upcoming: u32, calls: nat)
    ensures
        forall|i: int, j: int|
            0 <= i < j < calls ==> (#[trigger] numbers_handed_out(upcoming, calls)[i]) < (
            #[trigger] numbers_handed_out(upcoming, calls)[j]),
        forall|i: int|
            0 <= i < calls ==> upcoming <= (#[trigger] numbers_handed_out(upcoming, calls)[i]),
{
}

impl Default for RequestSeqGenerator {
    fn default() -> (r: RequestSeqGenerator)
        ensures
            r.upcoming() == 0,
    {
        RequestSeqGenerator::new()
    }
}

/// Where a session stands.
#[derive(Debug, Clone, Copy, PartialEq, Eq, Structural)]
pub enum ReplConnectionState {
    /// No instruction is in flight.
    Idle,
    /// A request was sent and the service has not acknowledged it yet.
    WaitingForInstructionSeq { request_id: RequestSeq },
    /// The service accepted the instruction; output and the result are awaited.
    WaitingForResult { instruction_id: InstructionSeq },
}

/// The operation that waits for the service.
#[derive(Debug, Clone, Copy, PartialEq, Eq, Structural)]
pub enum InFlight {
    /// None.
    Nothing,
    /// An execute call, which waits for its handle.
    Request,
    /// An instruction, whose handle waits for output and the result.
    Instruction,
}

impl ReplConnectionState {
    /// The operation that is in flight: the one that fails where the service
    /// reports an error.
    pub fn in_flight(&self) -> (r: InFlight)
        ensures
            r == match *self {
                ReplConnectionState::Idle => InFlight::Nothing,
                ReplConnectionState::WaitingForInstructionSeq { .. } => InFlight::Request,
                ReplConnectionState::WaitingForResult { .. } => InFlight::Instruction,
            },
    {
        match self {
            ReplConnectionState::Idle => InFlight::Nothing,
            ReplConnectionState::WaitingForInstructionSeq { .. } => InFlight::Request,
            ReplConnectionState::WaitingForResult { .. } => InFlight::Instruction,
        }
    }
}

impl Default for ReplConnectionState {
    fn default() -> (r: ReplConnectionState)
        ensures
            r == ReplConnectionState::Idle,
    {
        ReplConnectionState::Idle
    }
}

/// Why a message was set aside without effect.
#[derive(Debug, Clone, Copy, PartialEq, Eq, Structural)]
pub enum Discard {
    /// An acknowledgement for another request than the pending one.
    UnexpectedRequestSeq { expected: RequestSeq, received: RequestSeq },
    /// Output or a result for another instruction than the one in flight.
    UnexpectedInstructionSeq { expected: InstructionSeq, received: InstructionSeq },
    /// A message that the state the session was in does not provide for.
    UnexpectedMessage { state: ReplConnectionState },
}

/// What the driver of a session does with one message from the service.
#[derive(Debug, Clone, PartialEq)]
pub enum Dispatch {
    /// The pending execute call resolves: its handle is the one of the
    /// instruction `instruction_id`.
    HandleReady { instruction_id: InstructionSeq },
    /// The chunk goes to the output of the instruction in flight.
    Output { chunk: StandardOutput },
    /// The result goes to the handle of the instruction in flight, whose output
    /// ends with it.
    Result { result: ExecResult },
    /// The message has no effect; the driver records why.
    Discarded { reason: Discard },
    /// A diagnostic of the service, for the driver to record.
    Diagnostic { message: String, level: MessageLevel },
    /// Nothing to do.
    Nothing,
}

/// The state that follows `state` when `message` arrives.
pub open spec fn next_state(
    state: ReplConnectionState,
    message: MessageFromServer,
) -> ReplConnectionState {
    match message {
        MessageFromServer::ExecReceived { seq, request_id } => match state {
            ReplConnectionState::WaitingForInstructionSeq { request_id: expected } => if request_id
                == expected {
                ReplConnectionState::WaitingForResult { instruction_id: seq }
            } else {
                state
            },
            _ => state,
        },
        MessageFromServer::Result(response) => match state {
            ReplConnectionState::WaitingForResult { instruction_id } => if response.instruction_id
                == instruction_id {
                ReplConnectionState::Idle
            } else {
                state
            },
            _ => state,
        },
        _ => state,
    }
}

/// What the driver has to do when `message` arrives in `state`; an error of the
/// service is the failure of the operation in flight.
pub open spec fn dispatch_of(state: ReplConnectionState, message: MessageFromServer) -> Result<
    Dispatch,
    ClientError,
> {
    match message {
        MessageFromServer::ExecReceived { seq, request_id } => match state {
            ReplConnectionState::WaitingForInstructionSeq { request_id: expected } => if request_id
                == expected {
                Ok(Dispatch::HandleReady { instruction_id: seq })
            } else {
                Ok(
                    Dispatch::Discarded {
                        reason: Discard::UnexpectedRequestSeq { expected, received: request_id },
                    },
                )
            },
            _ => Ok(Dispatch::Discarded { reason: Discard::UnexpectedMessage { state } }),
        },
        MessageFromServer::Result(response) => match state {
            ReplConnectionState::WaitingForResult { instruction_id } => if response.instruction_id
                == instruction_id {
                Ok(Dispatch::Result { result: response.result })
            } else {
                Ok(
                    Dispatch::Discarded {
                        reason: Discard::UnexpectedInstructionSeq {
                            expected: instruction_id,
                            received: response.instruction_id,
                        },
                    },
                )
            },
            _ => Ok(Dispatch::Discarded { reason: Discard::UnexpectedMessage { state } }),
        },
        MessageFromServer::Output { chunk, instruction_id: received } => match state {
            ReplConnectionState::WaitingForResult { instruction_id } => if received
                == instruction_id {
                Ok(Dispatch::Output { chunk })
            } else {
                Ok(
                    Dispatch::Discarded {
                        reason: Discard::UnexpectedInstructionSeq {
                            expected: instruction_id,
                            received,
                        },
                    },
                )
            },
            _ => Ok(Dispatch::Discarded { reason: Discard::UnexpectedMessage { state } }),
        },
        MessageFromServer::Error(error) => Err(ClientError::ApiError(error)),
        MessageFromServer::Connected { machine_name } => Ok(Dispatch::Nothing),
        MessageFromServer::Message { message, level } => Ok(
            Dispatch::Diagnostic { message, level },
        ),
    }
}

/// Takes one message from the service: moves `state` on and says what the
/// driver has to do.
///
/// An acknowledgement that names the pending request makes the instruction the
/// one in flight. Output and the result of the instruction in flight are passed
/// on, and the result ends the instruction. A message for another request or
/// instruction, or one that the state does not provide for, is discarded and
/// leaves the state as it was. An error of the service is returned as the
/// failure of the operation in flight, and leaves the state as it was too.
pub fn handle_message(message: MessageFromServer, state: &mut ReplConnectionState) -> (r: Result<
    Dispatch,
    ClientError,
>)
    ensures
        *final(state) == next_state(*old(state), message),
        r == dispatch_of(*old(state), message),
{
    let current = *state;
    match message {
        MessageFromServer::ExecReceived { seq, request_id } => {
            match current {
                ReplConnectionState::WaitingForInstructionSeq { request_id: expected } => {
                    if request_id != expected {
                        return Ok(
                            Dispatch::Discarded {
                                reason: Discard::UnexpectedRequestSeq {
                                    expected,
                                    received: request_id,
                                },
                            },
                        );
                    }
                    *state = ReplConnectionState::WaitingForResult { instruction_id: seq };
                    Ok(Dispatch::HandleReady { instruction_id: seq })
                },
                _ => Ok(
                    Dispatch::Discarded { reason: Discard::UnexpectedMessage { state: current } },
                ),
            }
        },
        MessageFromServer::Result(response) => {
            match current {
                ReplConnectionState::WaitingForResult { instruction_id } => {
                    if response.instruction_id != instruction_id {
                        return Ok(
                            Dispatch::Discarded {
                                reason: Discard::UnexpectedInstructionSeq {
                                    expected: instruction_id,
                                    received: response.instruction_id,
                                },
                            },
                        );
                    }
                    *state = ReplConnectionState::Idle;
                    Ok(Dispatch::Result { result: response.result })
                },
                _ => Ok(
                    Dispatch::Discarded { reason: Discard::UnexpectedMessage { state: current } },
                ),
            }
        },
        MessageFromServer::Output { chunk, instruction_id: received } => {
            match current {
                ReplConnectionState::WaitingForResult { instruction_id } => {
                    if received != instruction_id {
                        return Ok(
                            Dispatch::Discarded {
                                reason: Discard::UnexpectedInstructionSeq {
                                    expected: instruction_id,
                                    received,
                                },
                            },
                        );
                    }
                    Ok(Dispatch::Output { chunk })
                },
                _ => Ok(
                    Dispatch::Discarded { reason: Discard::UnexpectedMessage { state: current } },
                ),
            }
        },
        MessageFromServer::Error(error) => Err(ClientError::ApiError(error)),
        MessageFromServer::Connected { machine_name: _ } => Ok(Dispatch::Nothing),
        MessageFromServer::Message { message, level } => Ok(
            Dispatch::Diagnostic { message, level },
        ),
    }
}

/// What the driver does after one read from the socket.
#[derive(Debug)]
pub enum AfterReceive {
    /// A message arrived: the session takes it.
    Handle { message: MessageFromServer },
    /// A frame arrived that is no message: the driver records why and reads
    /// on.
    Skip { error: DecodeError },
    /// The socket is at its end, or the transport failed: the driver stops
    /// reading.
    Stop,
}

/// What the driver does after one read from the socket: `read` is `None` where
/// the socket is at its end or the transport failed, else the frame that
/// arrived, decoded.
pub open spec fn after_receive_of(
    read: Option<Result<MessageFromServer, DecodeError>>,
) -> AfterReceive {
    match read {
        Some(Ok(message)) => AfterReceive::Handle { message },
        Some(Err(error)) => AfterReceive::Skip { error },
        None => AfterReceive::Stop,
    }
}

/// What the driver does after one read from the socket. Only the end of the
/// socket and a failure of the transport end the reading; a frame that cannot
/// be decoded does not.
pub fn after_receive(read: Option<Result<MessageFromServer, DecodeError>>) -> (r: AfterReceive)
    ensures
        r == after_receive_of(read),
{
    match read {
        Some(Ok(message)) => AfterReceive::Handle { message },
        Some(Err(error)) => AfterReceive::Skip { error },
        None => AfterReceive::Stop,
    }
}

/// One session with one machine, seen from its driver: the driver sends the
/// messages that the session produces and hands it the messages that arrive.
#[derive(Debug)]
pub struct ReplConnection {
    pub machine_name: MachineName,
    request_seq_generator: RequestSeqGenerator,
    state: ReplConnectionState,
    before_request: ReplConnectionState,
}

impl ReplConnection {
    /// Where the session stands.
    pub closed spec fn current(&self) -> ReplConnectionState {
        self.state
    }

    /// The number that the next execute request gets.
    pub closed spec fn upcoming(&self) -> u32 {
        self.request_seq_generator.upcoming()
    }

    /// The machine that the session runs on: the field `machine_name`.
    pub closed spec fn machine(&self) -> MachineName {
        self.machine_name
    }

    /// Where the session stood when the last request was made: where it stands
    /// again if that request is abandoned.
    pub closed spec fn resumes(&self) -> ReplConnectionState {
        self.before_request
    }

    /// Opens the session from the first message that the service sent after the
    /// connection was made: it has to be `Connected`, and names the machine.
    /// With any other message, or none, no session comes about.
    pub fn new(first_message: Option<MessageFromServer>) -> (r: Result<ReplConnection, ClientError>)
        ensures
            match first_message {
                Some(MessageFromServer::Connected { machine_name }) => {
                    &&& r matches Ok(connection)
                    &&& connection.machine() == machine_name
                    &&& connection.current() == ReplConnectionState::Idle
                    &&& connection.resumes() == ReplConnectionState::Idle
                    &&& connection.upcoming() == 0
                },
                _ => {
                    &&& r matches Err(ClientError::Other(text))
                    &&& text@ == "Expected `connected` message from REPL."@
                },
            },
    {
        match first_message {
            Some(MessageFromServer::Connected { machine_name }) => Ok(
                ReplConnection {
                    machine_name,
                    request_seq_generator: RequestSeqGenerator::new(),
                    state: ReplConnectionState::Idle,
                    before_request: ReplConnectionState::Idle,
                },
            ),
            _ => Err(ClientError::Other("Expected `connected` message from REPL.".to_owned())),
        }
    }

    /// Where the session stands.
    pub fn state(&self) -> (r: ReplConnectionState)
        ensures
            r == self.current(),
    {
        self.state
    }

    /// The machine that the session runs on.
    pub fn machine_name(&self) -> (r: &MachineName)
        ensures
            *r == self.machine(),
    {
        &self.machine_name
    }

    /// Whether the session can make another request: whether a request number
    /// is left for it.
    pub fn can_exec(&self) -> (r: bool)
        ensures
            r == (self.upcoming() < u32::MAX),
    {
        !self.request_seq_generator.is_exhausted()
    }

    /// Starts the execution of `code` under the default time limit. See
    /// `exec_instruction`.
    pub fn exec(&mut self, code: &str) -> (message: MessageToServer)
        requires
            old(self).upcoming() < u32::MAX,
        ensures
            message matches MessageToServer::Exec { instruction, request_id } && instruction@ == (
            InstructionView { code: code@, timeout_seconds: DEFAULT_INSTRUCTION_TIMEOUT_SECONDS })
                && request_id.0 == old(self).upcoming(),
            final(self).current() == (ReplConnectionState::WaitingForInstructionSeq {
                request_id: RequestSeq(old(self).upcoming()),
            }),
            final(self).resumes() == old(self).current(),
            final(self).upcoming() == old(self).upcoming() + 1,
            final(self).machine() == old(self).machine(),
    {
        self.exec_instruction(Instruction::new(code))
    }

    /// Starts the execution of an instruction: gives the request the next
    /// request number, makes it the pending request of the session, and returns
    /// the message that the driver has to send.
    ///
    /// The session keeps one request at a time. A call made before the previous
    /// instruction has ended puts the new request in its place: what the service
    /// still sends for the previous one is then discarded. It is for the caller
    /// to wait for the result of one instruction before starting the next.
    ///
    /// The request counts as made when the call returns. A driver that cannot
    /// send the message says so with `abandon_request`. A request needs a
    /// request number: see `can_exec`.
    pub fn exec_instruction(&mut self, instruction: Instruction) -> (message: MessageToServer)
        requires
            old(self).upcoming() < u32::MAX,
        ensures
            message == (MessageToServer::Exec {
                instruction,
                request_id: RequestSeq(old(self).upcoming()),
            }),
            final(self).current() == (ReplConnectionState::WaitingForInstructionSeq {
                request_id: RequestSeq(old(self).upcoming()),
            }),
            final(self).resumes() == old(self).current(),
            final(self).upcoming() == old(self).upcoming() + 1,
            final(self).machine() == old(self).machine(),
    {
        let request_id = self.request_seq_generator.next();
        self.before_request = self.state;
        self.state = ReplConnectionState::WaitingForInstructionSeq { request_id };
        MessageToServer::Exec { instruction, request_id }
    }

    /// Takes back the request `request_id`, whose message could not be sent:
    /// where the session still waits for the acknowledgement of this request,
    /// it stands again where it stood before the request was made. The number
    /// of the request is spent all the same: no later request gets it.
    pub fn abandon_request(&mut self, request_id: RequestSeq)
        ensures
            final(self).current() == if old(self).current() == (
            ReplConnectionState::WaitingForInstructionSeq { request_id }) {
                old(self).resumes()
            } else {
                old(self).current()
            },
            final(self).resumes() == old(self).resumes(),
            final(self).upcoming() == old(self).upcoming(),
            final(self).machine() == old(self).machine(),
    {
        match self.state {
            ReplConnectionState::WaitingForInstructionSeq { request_id: pending } => {
                if pending == request_id {
                    self.state = self.before_request;
                }
            },
            _ => {},
        }
    }

    /// Takes one message from the service. See `handle_message`.
    pub fn receive(&mut self, message: MessageFromServer) -> (r: Result<Dispatch, ClientError>)
        ensures
            final(self).current() == next_state(old(self).current(), message),
            r == dispatch_of(old(self).current(), message),
            final(self).resumes() == old(self).resumes(),
            final(self).upcoming() == old(self).upcoming(),
            final(self).machine() == old(self).machine(),
    {
        handle_message(message, &mut self.state)
    }
}

/// The number of unread output chunks that a handle keeps unless it is made
/// for another number.
pub const OUTPUT_CAPACITY: usize = 50;

/// What a handle holds: the instruction it belongs to, the number of unread
/// output chunks that it keeps, the output chunks that arrived and were not
/// read yet, oldest first, and how the instruction ended, once it has.
pub struct HandleView {
    pub instruction_id: InstructionSeq,
    pub capacity: nat,
    pub unread: Seq<StandardOutput>,
    pub outcome: Option<Result<ExecResult, ClientError>>,
}

/// The newest `capacity` of `chunks`: all of them where they are no more.
pub open spec fn newest(chunks: Seq<StandardOutput>, capacity: nat) -> Seq<StandardOutput> {
    if chunks.len() <= capacity {
        chunks
    } else {
        chunks.subrange(chunks.len() - capacity, chunks.len() as int)
    }
}

impl HandleView {
    /// The handle of an instruction for which nothing has arrived yet.
    pub open spec fn fresh(instruction_id: InstructionSeq) -> HandleView {
        HandleView::with_capacity(instruction_id, OUTPUT_CAPACITY as nat)
    }

    /// The handle of an instruction for which nothing has arrived yet, and
    /// which keeps `capacity` unread chunks.
    pub open spec fn with_capacity(instruction_id: InstructionSeq, capacity: nat) -> HandleView {
        HandleView { instruction_id, capacity, unread: Seq::empty(), outcome: None }
    }

    /// Whether the handle keeps at least one chunk and holds no more than it
    /// keeps: this is so of a handle when it is made, and stays so.
    pub open spec fn wf(self) -> bool {
        1 <= self.capacity && self.unread.len() <= self.capacity
    }

    /// The handle after the driver delivered what one message gave. Output is
    /// added while the instruction has not ended, and where the handle is full
    /// the oldest unread chunk is lost for it; a result or a failure ends the
    /// instruction, once; everything else leaves the handle as it is.
    pub open spec fn deliver(self, dispatched: Result<Dispatch, ClientError>) -> HandleView {
        if self.outcome is Some {
            self
        } else {
            match dispatched {
                Ok(Dispatch::Output { chunk }) => HandleView {
                    unread: newest(self.unread.push(chunk), self.capacity),
                    ..self
                },
                Ok(Dispatch::Result { result }) => HandleView {
                    outcome: Some(Ok(result)),
                    ..self
                },
                Ok(_) => self,
                Err(error) => HandleView { outcome: Some(Err(error)), ..self },
            }
        }
    }
}

/// The caller's end of one instruction: the output that arrived, to be read in
/// the order of arrival, and the final result, to be taken once. The handle
/// keeps a bounded number of unread chunks: a caller that falls behind by more
/// loses the oldest of them.
#[derive(Debug)]
pub struct ExecResultHandle {
    instruction_id: InstructionSeq,
    capacity: usize,
    output: VecDeque<StandardOutput>,
    outcome: Option<Result<ExecResult, ClientError>>,
}

impl View for ExecResultHandle {
    type V = HandleView;

    closed spec fn view(&self) -> HandleView {
        HandleView {
            instruction_id: self.instruction_id,
            capacity: self.capacity as nat,
            unread: self.output@,
            outcome: self.outcome,
        }
    }
}

impl ExecResultHandle {
    /// The handle of the instruction `instruction_id`, for which nothing has
    /// arrived yet. It keeps `OUTPUT_CAPACITY` unread chunks.
    pub fn new(instruction_id: InstructionSeq) -> (r: ExecResultHandle)
        ensures
            r@ == HandleView::fresh(instruction_id),
            r@.wf(),
    {
        ExecResultHandle {
            instruction_id,
            capacity: OUTPUT_CAPACITY,
            output: VecDeque::new(),
            outcome: None,
        }
    }

    /// The handle of the instruction `instruction_id`, for which nothing has
    /// arrived yet, and which keeps `capacity` unread chunks.
    pub fn with_capacity(instruction_id: InstructionSeq, capacity: usize) -> (r: ExecResultHandle)
        requires
            capacity >= 1,
        ensures
            r@ == HandleView::with_capacity(instruction_id, capacity as nat),
            r@.wf(),
    {
        ExecResultHandle { instruction_id, capacity, output: VecDeque::new(), outcome: None }
    }


    /// The instruction that the handle belongs to.
    pub fn instruction_id(&self) -> (r: InstructionSeq)
        ensures
            r == self@.instruction_id,
    {
        self.instruction_id
    }

    /// The number of unread chunks that the handle keeps.
    pub fn capacity(&self) -> (r: usize)
        ensures
            r == self@.capacity,
    {
        self.capacity
    }

    /// The number of chunks that arrived and were not read yet.
    pub fn unread(&self) -> (r: usize)
        ensures
            r == self@.unread.len(),
    {
        self.output.len()
    }

    /// Takes in what the session gave for one message: output of the
    /// instruction, its result, or the failure of the operation in flight.
    /// Output that arrives while the handle is full takes the place of the
    /// oldest unread chunk.
    pub fn deliver(&mut self, dispatched: Result<Dispatch, ClientError>)
        ensures
            final(self)@ == old(self)@.deliver(dispatched),
            old(self)@.wf() ==> final(self)@.wf(),
    {
        if self.outcome.is_some() {
            return ;
        }
        match dispatched {
            Ok(Dispatch::Output { chunk }) => {
                let ghost all = old(self).output@.push(chunk);
                while self.output.len() > 0 && self.output.len() >= self.capacity
                    invariant
                        self.capacity == old(self).capacity,
                        self.instruction_id == old(self).instruction_id,
                        self.outcome == old(self).outcome,
                        self.output@.len() <= old(self).output@.len(),
                        self.output@ == old(self).output@.subrange(
                            old(self).output@.len() - self.output@.len(),
                            old(self).output@.len() as int,
                        ),
                        self.output@.len() + 1 >= self.capacity || self.output@.len()
                            == old(self).output@.len(),
                    decreases self.output@.len(),
                {
                    let ghost before = self.output@;
                    let _ = self.output.pop_front();
                    assert(self.output@ =~= old(self).output@.subrange(
                        old(self).output@.len() - self.output@.len(),
                        old(self).output@.len() as int,
                    ));
                }
                if self.capacity > 0 {
                    self.output.push_back(chunk);
                }
                assert(self.output@ =~= newest(all, self.capacity as nat));
            },
            Ok(Dispatch::Result { result }) => {
                self.outcome = Some(Ok(result));
            },
            Ok(_) => {},
            Err(error) => {
                self.outcome = Some(Err(error));
            },
        }
    }

    /// Ends the handle where the session is torn down: an instruction that has
    /// not ended by then ends as interrupted.
    pub fn close(&mut self)
        ensures
            final(self)@ == old(self)@.deliver(Err(ClientError::InstructionInterrupted)),
            old(self)@.wf() ==> final(self)@.wf(),
    {
        self.deliver(Err(ClientError::InstructionInterrupted));
    }

    /// Whether the instruction has ended: no further output will arrive.
    pub fn is_finished(&self) -> (r: bool)
        ensures
            r == (self@.outcome is Some),
    {
        self.outcome.is_some()
    }

    /// The oldest output chunk that was not read yet, which is thereby read;
    /// `None` where every chunk that arrived has been read.
    pub fn next(&mut self) -> (r: Option<StandardOutput>)
        ensures
            old(self)@.unread.len() == 0 ==> r is None && final(self)@ == old(self)@,
            old(self)@.unread.len() > 0 ==> r == Some(old(self)@.unread[0]) && final(self)@ == (
            HandleView { unread: old(self)@.unread.drop_first(), ..old(self)@ }),
            old(self)@.wf() ==> final(self)@.wf(),
    {
        self.output.pop_front()
    }

    /// Takes the final result. Where the instruction has not ended, because the
    /// connection or the session went away first, the call fails as
    /// interrupted; where the service reported an error instead, it fails with
    /// that error.
    pub fn result(self) -> (r: Result<ExecResult, ClientError>)
        ensures
            r == match self@.outcome {
                Some(outcome) => outcome,
                None => Err(ClientError::InstructionInterrupted),
            },
    {
        match self.outcome {
            Some(outcome) => outcome,
            None => Err(ClientError::InstructionInterrupted),
        }
    }
}

} // verus!
