//! Sessions over whole sequences of messages.
//!
//! The functions here say where a session stands, and what a handle holds,
//! after the driver has taken a sequence of messages one by one: each message
//! through `handle_message`, and what that gave into the handle. The theorems
//! say what this comes to: for the exchange that the service is meant to make,
//! and for any sequence whatever.

use super::error::ClientError;
use super::repl::{
    dispatch_of, newest, next_state, Discard, Dispatch, HandleView, ReplConnectionState,
    OUTPUT_CAPACITY,
};
use crate::api::api_types::{ApiExecResultResponse, ExecResult};
use crate::api::id_types::{InstructionSeq, RequestSeq};
use crate::api::protocol::{MessageFromServer, StandardOutput};
use crate::api::ApiErrorResponse;
use vstd::prelude::*;

verus! {

/// Where a session that stood in `state` stands after `messages`.
pub open spec fn state_after(
    state: ReplConnectionState,
    messages: Seq<MessageFromServer>,
) -> ReplConnectionState
    decreases messages.len(),
{
    if messages.len() == 0 {
        state
    } else {
        state_after(next_state(state, messages[0]), messages.drop_first())
    }
}

/// What `handle` holds after a session that stood in `state` took `messages`
/// and the driver delivered to the handle what each of them gave.
pub open spec fn handle_after(
    state: ReplConnectionState,
    handle: HandleView,
    messages: Seq<MessageFromServer>,
) -> HandleView
    decreases messages.len(),
{
    if messages.len() == 0 {
        handle
    } else {
        handle_after(
            next_state(state, messages[0]),
            handle.deliver(dispatch_of(state, messages[0])),
            messages.drop_first(),
        )
    }
}

/// The messages by which the service sends `chunks` as output of one
/// instruction.
pub open spec fn output_messages(
    instruction_id: InstructionSeq,
    chunks: Seq<StandardOutput>,
) -> Seq<MessageFromServer> {
    Seq::new(
        chunks.len(),
        |i: int| MessageFromServer::Output { chunk: chunks[i], instruction_id },
    )
}

/// The message by which the service sends the result of one instruction.
pub open spec fn result_message(
    instruction_id: InstructionSeq,
    result: ExecResult,
) -> MessageFromServer {
    MessageFromServer::Result(ApiExecResultResponse { instruction_id, result })
}

/// Whether `message` ends the instruction `instruction_id` for its handle: its
/// result does, and so does any error of the service.
pub open spec fn ends_instruction(
    instruction_id: InstructionSeq,
    message: MessageFromServer,
) -> bool {
    match message {
        MessageFromServer::Result(response) => response.instruction_id == instruction_id,
        MessageFromServer::Error(_) => true,
        _ => false,
    }
}

/// The output that `messages` carry for the instruction `instruction_id`, in
/// the order of arrival, up to the message that ends the instruction.
pub open spec fn output_of(
    instruction_id: InstructionSeq,
    messages: Seq<MessageFromServer>,
) -> Seq<StandardOutput>
    decreases messages.len(),
{
    if messages.len() == 0 {
        Seq::empty()
    } else if ends_instruction(instruction_id, messages[0]) {
        Seq::empty()
    } else {
        match messages[0] {
            MessageFromServer::Output { chunk, instruction_id: id } if id == instruction_id => {
                seq![chunk] + output_of(instruction_id, messages.drop_first())
            },
            _ => output_of(instruction_id, messages.drop_first()),
        }
    }
}

/// How `messages` end the instruction `instruction_id`: by the first of them
/// that ends it; `None` where none does.
pub open spec fn outcome_of(
    instruction_id: InstructionSeq,
    messages: Seq<MessageFromServer>,
) -> Option<Result<ExecResult, ClientError>>
    decreases messages.len(),
{
    if messages.len() == 0 {
        None
    } else {
        match messages[0] {
            MessageFromServer::Result(response) if response.instruction_id == instruction_id => {
                Some(Ok(response.result))
            },
            MessageFromServer::Error(error) => Some(Err(ClientError::ApiError(error))),
            _ => outcome_of(instruction_id, messages.drop_first()),
        }
    }
}

/// Taking one sequence of messages and then another is taking the two in a row.
pub proof fn lemma_after_concat(
    state: ReplConnectionState,
    handle: HandleView,
    first: Seq<MessageFromServer>,
    second: Seq<MessageFromServer>,
)
    ensures
        state_after(state, first + second) == state_after(state_after(state, first), second),
        handle_after(state, handle, first + second) == handle_after(
            state_after(state, first),
            handle_after(state, handle, first),
            second,
        ),
    decreases first.len(),
{
    if first.len() == 0 {
        assert(first + second =~= second);
    } else {
        assert((first + second).drop_first() =~= first.drop_first() + second);
        lemma_after_concat(
            next_state(state, first[0]),
            handle.deliver(dispatch_of(state, first[0])),
            first.drop_first(),
            second,
        );
    }
}

/// A handle whose instruction has ended holds what it held, whatever arrives.
pub proof fn lemma_finished_handle_is_final(
    state: ReplConnectionState,
    handle: HandleView,
    messages: Seq<MessageFromServer>,
)
    requires
        handle.outcome is Some,
    ensures
        handle_after(state, handle, messages) == handle,
    decreases messages.len(),
{
    if messages.len() > 0 {
        lemma_finished_handle_is_final(
            next_state(state, messages[0]),
            handle,
            messages.drop_first(),
        );
    }
}

/// Of what a full handle held and what arrived since, the newest are the
/// newest of all.
pub proof fn lemma_newest_of_newest(
    held: Seq<StandardOutput>,
    chunk: StandardOutput,
    later: Seq<StandardOutput>,
    capacity: nat,
)
    requires
        capacity >= 1,
    ensures
        newest(newest(held.push(chunk), capacity) + later, capacity) == newest(
            held + (seq![chunk] + later),
            capacity,
        ),
{
    let all = held + (seq![chunk] + later);
    let kept = newest(held.push(chunk), capacity);
    assert(held.push(chunk) + later =~= all);
    if held.push(chunk).len() > capacity {
        assert(newest(kept + later, capacity) =~= newest(all, capacity));
    }
}

/// While an instruction is in flight, the service may send anything: its
/// handle comes to hold the output that was sent for this instruction before
/// it ended, in the order of arrival, all of it as far as the handle keeps so
/// many chunks and else the newest of it, and ends as the first message that
/// ends the instruction says. A result that names another instruction never
/// reaches the handle. Until the instruction has ended, the session keeps
/// waiting for its result.
pub proof fn lemma_handle_holds_what_was_sent(
    instruction_id: InstructionSeq,
    handle: HandleView,
    messages: Seq<MessageFromServer>,
)
    requires
        handle.wf(),
        handle.outcome is None,
    ensures
        ({
            let state = ReplConnectionState::WaitingForResult { instruction_id };
            let after = handle_after(state, handle, messages);
            &&& after.instruction_id == handle.instruction_id
            &&& after.capacity == handle.capacity
            &&& after.unread == newest(
                handle.unread + output_of(instruction_id, messages),
                handle.capacity,
            )
            &&& after.outcome == outcome_of(instruction_id, messages)
            &&& after.outcome is None ==> state_after(state, messages) == state
        }),
    decreases messages.len(),
{
    let state = ReplConnectionState::WaitingForResult { instruction_id };
    if messages.len() == 0 {
        assert(handle.unread + Seq::<StandardOutput>::empty() =~= handle.unread);
    } else {
        let message = messages[0];
        let rest = messages.drop_first();
        let delivered = handle.deliver(dispatch_of(state, message));
        if ends_instruction(instruction_id, message) {
            lemma_finished_handle_is_final(next_state(state, message), delivered, rest);
            assert(handle.unread + Seq::<StandardOutput>::empty() =~= handle.unread);
        } else {
            assert(next_state(state, message) == state);
            lemma_handle_holds_what_was_sent(instruction_id, delivered, rest);
            match message {
                MessageFromServer::Output { chunk, instruction_id: id } if id == instruction_id => {
                    lemma_newest_of_newest(
                        handle.unread,
                        chunk,
                        output_of(instruction_id, rest),
                        handle.capacity,
                    );
                },
                _ => {},
            }
        }
    }
}

/// The result that a handle gives is the result that the service sent for the
/// instruction of the handle: the instruction whose number the acknowledgement
/// of the request assigned. This holds whatever the service sends, and so for
/// every instruction of a session that runs them one after another.
pub proof fn lemma_result_belongs_to_instruction(
    request_id: RequestSeq,
    instruction_id: InstructionSeq,
    messages: Seq<MessageFromServer>,
    result: ExecResult,
)
    requires
        handle_after(
            ReplConnectionState::WaitingForResult { instruction_id },
            HandleView::fresh(instruction_id),
            messages,
        ).outcome == Some(Ok::<ExecResult, ClientError>(result)),
    ensures
        dispatch_of(
            ReplConnectionState::WaitingForInstructionSeq { request_id },
            MessageFromServer::ExecReceived { seq: instruction_id, request_id },
        ) == Ok::<Dispatch, ClientError>(Dispatch::HandleReady { instruction_id }),
        next_state(
            ReplConnectionState::WaitingForInstructionSeq { request_id },
            MessageFromServer::ExecReceived { seq: instruction_id, request_id },
        ) == (ReplConnectionState::WaitingForResult { instruction_id }),
        exists|k: int|
            0 <= k < messages.len() && #[trigger] messages[k] == result_message(
                instruction_id,
                result,
            ),
{
    lemma_handle_holds_what_was_sent(
        instruction_id,
        HandleView::fresh(instruction_id),
        messages,
    );
    lemma_outcome_has_a_witness(instruction_id, messages, result);
}

/// Where messages end an instruction with a result, one of them is the message
/// that carries this result for this instruction.
pub proof fn lemma_outcome_has_a_witness(
    instruction_id: InstructionSeq,
    messages: Seq<MessageFromServer>,
    result: ExecResult,
)
    requires
        outcome_of(instruction_id, messages) == Some(Ok::<ExecResult, ClientError>(result)),
    ensures
        exists|k: int|
            0 <= k < messages.len() && #[trigger] messages[k] == result_message(
                instruction_id,
                result,
            ),
    decreases messages.len(),
{
    if messages.len() > 0 {
        match messages[0] {
            MessageFromServer::Result(response) if response.instruction_id == instruction_id => {
                assert(messages[0] == result_message(instruction_id, result));
            },
            MessageFromServer::Error(error) => {},
            _ => {
                let rest = messages.drop_first();
                lemma_outcome_has_a_witness(instruction_id, rest, result);
                let k = choose|k: int|
                    0 <= k < rest.len() && #[trigger] rest[k] == result_message(
                        instruction_id,
                        result,
                    );
                assert(messages[k + 1] == rest[k]);
            },
        }
    }
}

/// What only carries output of one instruction carries exactly that output, and
/// does not end the instruction.
pub proof fn lemma_output_messages(instruction_id: InstructionSeq, chunks: Seq<StandardOutput>)
    ensures
        output_of(instruction_id, output_messages(instruction_id, chunks)) == chunks,
        outcome_of(instruction_id, output_messages(instruction_id, chunks)) is None,
    decreases chunks.len(),
{
    let messages = output_messages(instruction_id, chunks);
    if chunks.len() == 0 {
        assert(chunks =~= Seq::empty());
    } else {
        assert(messages.drop_first() =~= output_messages(instruction_id, chunks.drop_first()));
        lemma_output_messages(instruction_id, chunks.drop_first());
        assert(seq![chunks[0]] + chunks.drop_first() =~= chunks);
    }
}

/// The exchange that the service is meant to make for one request: the
/// acknowledgement, the output, the result.
pub open spec fn exchange(
    request_id: RequestSeq,
    instruction_id: InstructionSeq,
    chunks: Seq<StandardOutput>,
    result: ExecResult,
) -> Seq<MessageFromServer> {
    seq![MessageFromServer::ExecReceived { seq: instruction_id, request_id }] + output_messages(
        instruction_id,
        chunks,
    ) + seq![result_message(instruction_id, result)]
}

/// One whole exchange. The acknowledgement of the pending request resolves the
/// execute call with the handle of the instruction that the service numbered.
/// That handle then comes to hold the output chunks in the order in which the
/// service sent them, every one of them where they are no more than the handle
/// keeps, and the result; and the session is idle again, ready for the next
/// request. Since `exec_instruction` makes its request the pending one
/// whatever came before, this holds of every request of a session that runs
/// its instructions one after another.
pub proof fn lemma_exchange(
    request_id: RequestSeq,
    instruction_id: InstructionSeq,
    chunks: Seq<StandardOutput>,
    result: ExecResult,
)
    ensures
        ({
            let pending = ReplConnectionState::WaitingForInstructionSeq { request_id };
            let in_flight = ReplConnectionState::WaitingForResult { instruction_id };
            let messages = exchange(request_id, instruction_id, chunks, result);
            &&& dispatch_of(pending, messages[0]) == Ok::<Dispatch, ClientError>(
                Dispatch::HandleReady { instruction_id },
            )
            &&& next_state(pending, messages[0]) == in_flight
            &&& state_after(pending, messages) == ReplConnectionState::Idle
            &&& handle_after(in_flight, HandleView::fresh(instruction_id), messages.drop_first())
                == (HandleView {
                instruction_id,
                capacity: OUTPUT_CAPACITY as nat,
                unread: newest(chunks, OUTPUT_CAPACITY as nat),
                outcome: Some(Ok(result)),
            })
        }),
{
    let pending = ReplConnectionState::WaitingForInstructionSeq { request_id };
    let in_flight = ReplConnectionState::WaitingForResult { instruction_id };
    let fresh = HandleView::fresh(instruction_id);
    let acknowledgement = seq![MessageFromServer::ExecReceived { seq: instruction_id, request_id }];
    let output = output_messages(instruction_id, chunks);
    let last = seq![result_message(instruction_id, result)];
    let messages = exchange(request_id, instruction_id, chunks, result);
    assert(messages.drop_first() =~= output + last);

    lemma_output_messages(instruction_id, chunks);
    lemma_handle_holds_what_was_sent(instruction_id, fresh, output);
    assert(fresh.unread + chunks =~= chunks);
    let filled = handle_after(in_flight, fresh, output);
    assert(state_after(in_flight, output) == in_flight);
    lemma_after_concat(in_flight, fresh, output, last);
    assert(last.drop_first() =~= Seq::<MessageFromServer>::empty());
    assert(handle_after(in_flight, filled, last) == filled.deliver(
        dispatch_of(in_flight, last[0]),
    )) by {
        assert(handle_after(
            next_state(in_flight, last[0]),
            filled.deliver(dispatch_of(in_flight, last[0])),
            last.drop_first(),
        ) == filled.deliver(dispatch_of(in_flight, last[0])));
    }
    assert(state_after(in_flight, last) == ReplConnectionState::Idle) by {
        assert(state_after(next_state(in_flight, last[0]), last.drop_first()) == next_state(
            in_flight,
            last[0],
        ));
    }

    assert(messages =~= acknowledgement + (output + last));
    lemma_after_concat(pending, fresh, acknowledgement, output + last);
    assert(acknowledgement.drop_first() =~= Seq::<MessageFromServer>::empty());
    assert(state_after(pending, acknowledgement) == in_flight) by {
        assert(state_after(
            next_state(pending, acknowledgement[0]),
            acknowledgement.drop_first(),
        ) == next_state(pending, acknowledgement[0]));
    }
}

/// One request and what the service answers to it: the number of the request,
/// the number that the service gives to the instruction, the output of the
/// instruction, and its result.
pub struct Exchange {
    pub request_id: RequestSeq,
    pub instruction_id: InstructionSeq,
    pub chunks: Seq<StandardOutput>,
    pub result: ExecResult,
}

/// Where a session stands that ran requests one after another: each request
/// was made when the one before it had been answered in full.
pub open spec fn state_after_exchanges(
    state: ReplConnectionState,
    exchanges: Seq<Exchange>,
) -> ReplConnectionState
    decreases exchanges.len(),
{
    if exchanges.len() == 0 {
        state
    } else {
        let first = exchanges[0];
        state_after_exchanges(
            state_after(
                ReplConnectionState::WaitingForInstructionSeq { request_id: first.request_id },
                exchange(first.request_id, first.instruction_id, first.chunks, first.result),
            ),
            exchanges.drop_first(),
        )
    }
}

/// What the handle of one request holds when the service has answered the
/// request in full.
pub open spec fn handle_of_exchange(answer: Exchange) -> HandleView {
    handle_after(
        ReplConnectionState::WaitingForResult { instruction_id: answer.instruction_id },
        HandleView::fresh(answer.instruction_id),
        output_messages(answer.instruction_id, answer.chunks) + seq![
            result_message(answer.instruction_id, answer.result),
        ],
    )
}

/// A session that runs its instructions one after another: however many
/// requests it makes, and whatever the service numbers their instructions, the
/// handle of each request belongs to the instruction that the acknowledgement
/// of this request numbered, and holds the result of this instruction and its
/// output, of no other; and after each of them the session is idle.
pub proof fn lemma_exchanges_in_a_row(state: ReplConnectionState, exchanges: Seq<Exchange>)
    ensures
        exchanges.len() > 0 ==> state_after_exchanges(state, exchanges)
            == ReplConnectionState::Idle,
        forall|k: int|
            0 <= k < exchanges.len() ==> handle_of_exchange(#[trigger] exchanges[k]) == (
            HandleView {
                instruction_id: exchanges[k].instruction_id,
                capacity: OUTPUT_CAPACITY as nat,
                unread: newest(exchanges[k].chunks, OUTPUT_CAPACITY as nat),
                outcome: Some(Ok(exchanges[k].result)),
            }),
    decreases exchanges.len(),
{
    if exchanges.len() > 0 {
        let first = exchanges[0];
        let rest = exchanges.drop_first();
        lemma_exchange(first.request_id, first.instruction_id, first.chunks, first.result);
        lemma_exchanges_in_a_row(ReplConnectionState::Idle, rest);
        assert forall|k: int| 0 <= k < exchanges.len() implies handle_of_exchange(
            #[trigger] exchanges[k],
        ) == (HandleView {
            instruction_id: exchanges[k].instruction_id,
            capacity: OUTPUT_CAPACITY as nat,
            unread: newest(exchanges[k].chunks, OUTPUT_CAPACITY as nat),
            outcome: Some(Ok(exchanges[k].result)),
        }) by {
            let answer = exchanges[k];
            lemma_exchange(answer.request_id, answer.instruction_id, answer.chunks, answer.result);
            assert(exchange(
                answer.request_id,
                answer.instruction_id,
                answer.chunks,
                answer.result,
            ).drop_first() =~= output_messages(answer.instruction_id, answer.chunks) + seq![
                result_message(answer.instruction_id, answer.result),
            ]);
        }
    }
}

/// Whether the numbers of output chunks increase strictly.
pub open spec fn numbers_increase(chunks: Seq<StandardOutput>) -> bool {
    forall|i: int, j: int|
        0 <= i < j < chunks.len() ==> (#[trigger] chunks[i]).seq.0 < (#[trigger] chunks[j]).seq.0
}

/// Whether the numbers of output chunks start at zero and increase strictly.
pub open spec fn numbered_from_zero(chunks: Seq<StandardOutput>) -> bool {
    &&& chunks.len() > 0 ==> chunks[0].seq.0 == 0
    &&& numbers_increase(chunks)
}

/// Output is read in the order in which the service numbered it: where the
/// numbers of the chunks that the service sends for an instruction start at
/// zero and increase strictly, the numbers of the chunks that the handle
/// holds, oldest first, which is the order in which `next` hands them out,
/// increase strictly; and they start at zero where the caller has not fallen
/// behind by more chunks than the handle keeps.
pub proof fn lemma_output_numbers_increase(
    instruction_id: InstructionSeq,
    chunks: Seq<StandardOutput>,
)
    requires
        numbered_from_zero(chunks),
    ensures
        ({
            let held = handle_after(
                ReplConnectionState::WaitingForResult { instruction_id },
                HandleView::fresh(instruction_id),
                output_messages(instruction_id, chunks),
            ).unread;
            &&& numbers_increase(held)
            &&& chunks.len() <= OUTPUT_CAPACITY ==> held == chunks && numbered_from_zero(held)
        }),
{
    lemma_output_messages(instruction_id, chunks);
    lemma_handle_holds_what_was_sent(
        instruction_id,
        HandleView::fresh(instruction_id),
        output_messages(instruction_id, chunks),
    );
    assert(HandleView::fresh(instruction_id).unread + chunks =~= chunks);
}

/// An acknowledgement for another request than the pending one changes
/// nothing: the session keeps waiting, the execute call stays unresolved, and
/// the acknowledgement of the pending request still resolves it.
pub proof fn lemma_stale_acknowledgement(
    pending: RequestSeq,
    other: RequestSeq,
    stale: InstructionSeq,
    instruction_id: InstructionSeq,
)
    requires
        other != pending,
    ensures
        ({
            let state = ReplConnectionState::WaitingForInstructionSeq { request_id: pending };
            let mismatch = MessageFromServer::ExecReceived { seq: stale, request_id: other };
            let matching = MessageFromServer::ExecReceived {
                seq: instruction_id,
                request_id: pending,
            };
            &&& next_state(state, mismatch) == state
            &&& dispatch_of(state, mismatch) == Ok::<Dispatch, ClientError>(
                Dispatch::Discarded {
                    reason: Discard::UnexpectedRequestSeq { expected: pending, received: other },
                },
            )
            &&& dispatch_of(next_state(state, mismatch), matching) == Ok::<Dispatch, ClientError>(
                Dispatch::HandleReady { instruction_id },
            )
            &&& next_state(next_state(state, mismatch), matching) == (
            ReplConnectionState::WaitingForResult { instruction_id })
        }),
{
}

/// Whatever does not end an instruction leaves the session where it stood, or,
/// for the acknowledgement of the pending request, moves it on to the
/// instruction: no message makes a session lose its place otherwise.
pub proof fn lemma_state_changes_only_on_match(
    state: ReplConnectionState,
    message: MessageFromServer,
)
    ensures
        next_state(state, message) != state ==> (dispatch_of(state, message) matches Ok(
            Dispatch::HandleReady { .. },
        ) || dispatch_of(state, message) matches Ok(Dispatch::Result { .. })),
        dispatch_of(state, message) matches Ok(Dispatch::Discarded { .. }) ==> next_state(
            state,
            message,
        ) == state,
        dispatch_of(state, message) is Err ==> next_state(state, message) == state,
{
}

/// A handle whose instruction has not ended when the session goes away ends as
/// interrupted.
pub proof fn lemma_closing_interrupts(handle: HandleView)
    requires
        handle.outcome is None,
    ensures
        handle.deliver(Err(ClientError::InstructionInterrupted)).outcome == Some(
            Err::<ExecResult, ClientError>(ClientError::InstructionInterrupted),
        ),
{
}

/// An error that the service reports while a result is awaited becomes the
/// outcome of the handle, and leaves the session where it stood.
pub proof fn lemma_service_error_fails_the_result(
    instruction_id: InstructionSeq,
    handle: HandleView,
    error: ApiErrorResponse,
)
    requires
        handle.outcome is None,
    ensures
        ({
            let state = ReplConnectionState::WaitingForResult { instruction_id };
            let message = MessageFromServer::Error(error);
            &&& next_state(state, message) == state
            &&& handle.deliver(dispatch_of(state, message)).outcome == Some(
                Err::<ExecResult, ClientError>(ClientError::ApiError(error)),
            )
        }),
{
}

} // verus!
