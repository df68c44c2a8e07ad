use forevervm_sdk::api::api_types::{ExecResult, ExecResultType, Instruction};
use forevervm_sdk::api::id_types::{InstructionSeq, MachineName, MachineOutputSeq, RequestSeq};
use forevervm_sdk::api::protocol::{
    MessageFromServer, MessageToServer, StandardOutput, StandardOutputStream,
};
use forevervm_sdk::api::wire::{
    decode_message_from_server, decode_message_to_server, encode_message_to_server,
};
use forevervm_sdk::api::ApiErrorResponse;
use forevervm_sdk::client::error::ClientError;
use forevervm_sdk::api::api_types::ApiExecResultResponse;
use forevervm_sdk::api::protocol::MessageLevel;
use forevervm_sdk::api::wire::DecodeError;
use forevervm_sdk::client::repl::{
    after_receive, handle_message, AfterReceive, Discard, Dispatch, ExecResultHandle, InFlight,
    ReplConnection, ReplConnectionState, RequestSeqGenerator, OUTPUT_CAPACITY,
};

fn connected(name: &str) -> MessageFromServer {
    MessageFromServer::Connected { machine_name: MachineName(name.to_string()) }
}

#[test]
fn exec_frame_round_trip() {
    let message = MessageToServer::Exec {
        instruction: Instruction { code: "1+1".to_string(), timeout_seconds: 15 },
        request_id: RequestSeq(0),
    };
    let text = encode_message_to_server(&message).unwrap();
    let back = decode_message_to_server(&text).unwrap();
    assert_eq!(back, message);
    let MessageToServer::Exec { instruction, .. } = back;
    assert_eq!(instruction, Instruction { code: "1+1".to_string(), timeout_seconds: 15 });
}

#[test]
fn end_to_end_session() {
    let first =
        decode_message_from_server(r#"{"type":"connected","machine_name":"m1"}"#).unwrap();
    assert_eq!(first, connected("m1"));
    let mut connection = ReplConnection::new(Some(first)).unwrap();
    assert_eq!(connection.machine_name, MachineName("m1".to_string()));

    let frame = connection.exec("print(1)");
    assert_eq!(
        frame,
        MessageToServer::Exec {
            instruction: Instruction { code: "print(1)".to_string(), timeout_seconds: 15 },
            request_id: RequestSeq(0),
        }
    );
    assert_eq!(
        connection.state(),
        ReplConnectionState::WaitingForInstructionSeq { request_id: RequestSeq(0) }
    );

    let acknowledgement =
        decode_message_from_server(r#"{"type":"exec_received","seq":10,"request_id":0}"#)
            .unwrap();
    let mut handle = match connection.receive(acknowledgement).unwrap() {
        Dispatch::HandleReady { instruction_id } => ExecResultHandle::new(instruction_id),
        other => panic!("unexpected dispatch {:?}", other),
    };
    assert_eq!(handle.instruction_id(), InstructionSeq(10));

    let output = decode_message_from_server(
        r#"{"type":"output","instruction_id":10,"chunk":{"stream":"stdout","data":"1\n","seq":0}}"#,
    )
    .unwrap();
    handle.deliver(connection.receive(output));
    let result = decode_message_from_server(
        r#"{"type":"result","instruction_id":10,"result":{"value":"None","runtime_ms":2}}"#,
    )
    .unwrap();
    handle.deliver(connection.receive(result));
    assert_eq!(connection.state(), ReplConnectionState::Idle);

    assert_eq!(
        handle.next(),
        Some(StandardOutput {
            stream: StandardOutputStream::Stdout,
            data: "1\n".to_string(),
            seq: MachineOutputSeq(0),
        })
    );
    assert_eq!(handle.next(), None);
    assert!(handle.is_finished());
    assert_eq!(
        handle.result().unwrap(),
        ExecResult {
            result: ExecResultType::Value { value: Some("None".to_string()), data: None },
            runtime_ms: 2,
        }
    );
}

#[test]
fn mismatched_acknowledgement_is_discarded() {
    let mut state = ReplConnectionState::WaitingForInstructionSeq { request_id: RequestSeq(5) };
    let stale = MessageFromServer::ExecReceived { seq: InstructionSeq(1), request_id: RequestSeq(6) };
    match handle_message(stale, &mut state).unwrap() {
        Dispatch::Discarded { reason } => assert_eq!(
            reason,
            Discard::UnexpectedRequestSeq { expected: RequestSeq(5), received: RequestSeq(6) }
        ),
        other => panic!("unexpected dispatch {:?}", other),
    }
    assert_eq!(
        state,
        ReplConnectionState::WaitingForInstructionSeq { request_id: RequestSeq(5) }
    );
    let matching =
        MessageFromServer::ExecReceived { seq: InstructionSeq(2), request_id: RequestSeq(5) };
    match handle_message(matching, &mut state).unwrap() {
        Dispatch::HandleReady { instruction_id } => assert_eq!(instruction_id, InstructionSeq(2)),
        other => panic!("unexpected dispatch {:?}", other),
    }
    assert_eq!(state, ReplConnectionState::WaitingForResult { instruction_id: InstructionSeq(2) });
}

#[test]
fn closing_interrupts_a_pending_result() {
    let mut handle = ExecResultHandle::new(InstructionSeq(3));
    handle.close();
    assert!(matches!(handle.result(), Err(ClientError::InstructionInterrupted)));
    let untouched = ExecResultHandle::new(InstructionSeq(4));
    assert!(matches!(untouched.result(), Err(ClientError::InstructionInterrupted)));
}

#[test]
fn service_error_fails_the_pending_result() {
    let mut state = ReplConnectionState::WaitingForResult { instruction_id: InstructionSeq(7) };
    let mut handle = ExecResultHandle::new(InstructionSeq(7));
    let message = decode_message_from_server(r#"{"type":"error","code":"RateLimited","id":null}"#)
        .unwrap();
    assert_eq!(
        message,
        MessageFromServer::Error(ApiErrorResponse { code: "RateLimited".to_string(), id: None })
    );
    handle.deliver(handle_message(message, &mut state));
    assert_eq!(state, ReplConnectionState::WaitingForResult { instruction_id: InstructionSeq(7) });
    match handle.result() {
        Err(ClientError::ApiError(error)) => {
            assert_eq!(error.code, "RateLimited");
            assert_eq!(error.id, None);
        },
        other => panic!("unexpected result {:?}", other),
    }
}

fn chunk(seq: i64, data: &str) -> StandardOutput {
    StandardOutput {
        stream: StandardOutputStream::Stdout,
        data: data.to_string(),
        seq: MachineOutputSeq(seq),
    }
}

fn value(text: &str, runtime_ms: u64) -> ExecResult {
    ExecResult {
        result: ExecResultType::Value { value: Some(text.to_string()), data: None },
        runtime_ms,
    }
}

fn output_message(instruction: i64, seq: i64, data: &str) -> MessageFromServer {
    MessageFromServer::Output { chunk: chunk(seq, data), instruction_id: InstructionSeq(instruction) }
}

fn result_message(instruction: i64, result: ExecResult) -> MessageFromServer {
    MessageFromServer::Result(ApiExecResultResponse {
        instruction_id: InstructionSeq(instruction),
        result,
    })
}

#[test]
fn request_numbers_are_handed_out_in_order() {
    let mut generator = RequestSeqGenerator::new();
    assert_eq!(generator.next(), RequestSeq(0));
    assert_eq!(generator.next(), RequestSeq(1));
    assert_eq!(generator.next(), RequestSeq(2));
    let mut other = RequestSeqGenerator::default();
    assert_eq!(other.next(), RequestSeq(0));
    assert_eq!(ReplConnectionState::default(), ReplConnectionState::Idle);
}

#[test]
fn session_needs_the_connected_message_first() {
    for first in [
        None,
        Some(MessageFromServer::ExecReceived { seq: InstructionSeq(1), request_id: RequestSeq(0) }),
        Some(MessageFromServer::Message {
            message: "hello".to_string(),
            level: MessageLevel::Info,
        }),
    ] {
        match ReplConnection::new(first) {
            Err(ClientError::Other(text)) => {
                assert_eq!(text, "Expected `connected` message from REPL.")
            },
            other => panic!("unexpected outcome {:?}", other),
        }
    }
    let connection = ReplConnection::new(Some(connected("m9"))).unwrap();
    assert_eq!(connection.state(), ReplConnectionState::Idle);
    assert_eq!(connection.machine_name.to_string(), "m9");
}

#[test]
fn instructions_run_one_after_another() {
    let mut connection = ReplConnection::new(Some(connected("m1"))).unwrap();
    for (round, seq) in [(0u32, 10i64), (1, 11), (2, 40)] {
        let frame = connection.exec_instruction(Instruction {
            code: format!("x = {}", round),
            timeout_seconds: 3,
        });
        assert_eq!(
            frame,
            MessageToServer::Exec {
                instruction: Instruction { code: format!("x = {}", round), timeout_seconds: 3 },
                request_id: RequestSeq(round),
            }
        );
        let acknowledged = connection
            .receive(MessageFromServer::ExecReceived {
                seq: InstructionSeq(seq),
                request_id: RequestSeq(round),
            })
            .unwrap();
        assert_eq!(acknowledged, Dispatch::HandleReady { instruction_id: InstructionSeq(seq) });
        let mut handle = ExecResultHandle::new(InstructionSeq(seq));
        for number in 0..3 {
            handle.deliver(connection.receive(output_message(seq, number, "o")));
        }
        handle.deliver(connection.receive(result_message(seq, value("v", round as u64))));
        assert_eq!(connection.state(), ReplConnectionState::Idle);
        assert_eq!(handle.instruction_id(), InstructionSeq(seq));
        let mut numbers = Vec::new();
        while let Some(output) = handle.next() {
            numbers.push(output.seq.0);
        }
        assert_eq!(numbers, vec![0, 1, 2]);
        assert_eq!(handle.result().unwrap(), value("v", round as u64));
    }
}

#[test]
fn output_and_results_of_other_instructions_are_discarded() {
    let mut state = ReplConnectionState::WaitingForResult { instruction_id: InstructionSeq(8) };
    let mut handle = ExecResultHandle::new(InstructionSeq(8));
    let stale_output = handle_message(output_message(7, 0, "old"), &mut state);
    assert_eq!(
        stale_output.as_ref().unwrap(),
        &Dispatch::Discarded {
            reason: Discard::UnexpectedInstructionSeq {
                expected: InstructionSeq(8),
                received: InstructionSeq(7),
            }
        }
    );
    handle.deliver(stale_output);
    let stale_result = handle_message(result_message(7, value("old", 1)), &mut state);
    assert_eq!(
        stale_result.as_ref().unwrap(),
        &Dispatch::Discarded {
            reason: Discard::UnexpectedInstructionSeq {
                expected: InstructionSeq(8),
                received: InstructionSeq(7),
            }
        }
    );
    handle.deliver(stale_result);
    assert_eq!(state, ReplConnectionState::WaitingForResult { instruction_id: InstructionSeq(8) });
    assert!(!handle.is_finished());
    assert_eq!(handle.next(), None);

    handle.deliver(handle_message(output_message(8, 0, "new"), &mut state));
    handle.deliver(handle_message(result_message(8, value("new", 2)), &mut state));
    assert_eq!(state, ReplConnectionState::Idle);
    assert_eq!(handle.next(), Some(chunk(0, "new")));
    assert_eq!(handle.result().unwrap(), value("new", 2));
}

#[test]
fn messages_out_of_turn_change_nothing() {
    let states = [
        ReplConnectionState::Idle,
        ReplConnectionState::WaitingForInstructionSeq { request_id: RequestSeq(1) },
        ReplConnectionState::WaitingForResult { instruction_id: InstructionSeq(2) },
    ];
    for before in states {
        let mut state = before;
        if !matches!(before, ReplConnectionState::WaitingForResult { .. }) {
            for message in [output_message(2, 0, "x"), result_message(2, value("v", 1))] {
                assert_eq!(
                    handle_message(message, &mut state).unwrap(),
                    Dispatch::Discarded { reason: Discard::UnexpectedMessage { state: before } }
                );
                assert_eq!(state, before);
            }
        }
        if !matches!(before, ReplConnectionState::WaitingForInstructionSeq { .. }) {
            let acknowledgement = MessageFromServer::ExecReceived {
                seq: InstructionSeq(2),
                request_id: RequestSeq(1),
            };
            assert_eq!(
                handle_message(acknowledgement, &mut state).unwrap(),
                Dispatch::Discarded { reason: Discard::UnexpectedMessage { state: before } }
            );
            assert_eq!(state, before);
        }
        assert_eq!(handle_message(connected("m"), &mut state).unwrap(), Dispatch::Nothing);
        assert_eq!(state, before);
        let diagnostic = MessageFromServer::Message {
            message: "careful".to_string(),
            level: MessageLevel::Warn,
        };
        assert_eq!(
            handle_message(diagnostic, &mut state).unwrap(),
            Dispatch::Diagnostic { message: "careful".to_string(), level: MessageLevel::Warn }
        );
        assert_eq!(state, before);
        let error = MessageFromServer::Error(ApiErrorResponse {
            code: "Boom".to_string(),
            id: Some("e1".to_string()),
        });
        match handle_message(error, &mut state) {
            Err(ClientError::ApiError(report)) => {
                assert_eq!(report.code, "Boom");
                assert_eq!(report.id, Some("e1".to_string()));
            },
            other => panic!("unexpected outcome {:?}", other),
        }
        assert_eq!(state, before);
    }
}

#[test]
fn a_new_request_takes_the_place_of_the_pending_one() {
    let mut connection = ReplConnection::new(Some(connected("m1"))).unwrap();
    connection.exec("first");
    connection.exec("second");
    assert_eq!(
        connection.state(),
        ReplConnectionState::WaitingForInstructionSeq { request_id: RequestSeq(1) }
    );
    let stale = MessageFromServer::ExecReceived { seq: InstructionSeq(5), request_id: RequestSeq(0) };
    assert_eq!(
        connection.receive(stale).unwrap(),
        Dispatch::Discarded {
            reason: Discard::UnexpectedRequestSeq {
                expected: RequestSeq(1),
                received: RequestSeq(0)
            }
        }
    );
    let matching =
        MessageFromServer::ExecReceived { seq: InstructionSeq(6), request_id: RequestSeq(1) };
    assert_eq!(
        connection.receive(matching).unwrap(),
        Dispatch::HandleReady { instruction_id: InstructionSeq(6) }
    );
}

#[test]
fn handle_keeps_output_in_order_and_ends_once() {
    let mut handle = ExecResultHandle::new(InstructionSeq(1));
    assert!(!handle.is_finished());
    assert_eq!(handle.next(), None);
    handle.deliver(Ok(Dispatch::Output { chunk: chunk(0, "a") }));
    handle.deliver(Ok(Dispatch::Nothing));
    handle.deliver(Ok(Dispatch::HandleReady { instruction_id: InstructionSeq(9) }));
    handle.deliver(Ok(Dispatch::Output { chunk: chunk(1, "b") }));
    assert_eq!(handle.next(), Some(chunk(0, "a")));
    handle.deliver(Ok(Dispatch::Output { chunk: chunk(2, "c") }));
    handle.deliver(Ok(Dispatch::Result { result: value("done", 4) }));
    assert!(handle.is_finished());
    handle.deliver(Ok(Dispatch::Output { chunk: chunk(3, "late") }));
    handle.deliver(Ok(Dispatch::Result { result: value("again", 5) }));
    handle.deliver(Err(ClientError::Other("late".to_string())));
    handle.close();
    assert_eq!(handle.next(), Some(chunk(1, "b")));
    assert_eq!(handle.next(), Some(chunk(2, "c")));
    assert_eq!(handle.next(), None);
    assert_eq!(handle.instruction_id(), InstructionSeq(1));
    assert_eq!(handle.result().unwrap(), value("done", 4));
}

#[test]
fn result_can_be_taken_without_reading_the_output() {
    let mut handle = ExecResultHandle::new(InstructionSeq(1));
    handle.deliver(Ok(Dispatch::Output { chunk: chunk(0, "a") }));
    handle.deliver(Ok(Dispatch::Result { result: value("r", 1) }));
    assert_eq!(handle.result().unwrap(), value("r", 1));
}

#[test]
fn service_error_fails_the_pending_request() {
    let mut connection = ReplConnection::new(Some(connected("m1"))).unwrap();
    connection.exec("1");
    let error = MessageFromServer::Error(ApiErrorResponse {
        code: "RateLimited".to_string(),
        id: None,
    });
    match connection.receive(error) {
        Err(ClientError::ApiError(report)) => assert_eq!(report.code, "RateLimited"),
        other => panic!("unexpected outcome {:?}", other),
    }
    assert_eq!(
        connection.state(),
        ReplConnectionState::WaitingForInstructionSeq { request_id: RequestSeq(0) }
    );
}

#[test]
fn the_operation_in_flight_follows_the_state() {
    assert_eq!(ReplConnectionState::Idle.in_flight(), InFlight::Nothing);
    assert_eq!(
        ReplConnectionState::WaitingForInstructionSeq { request_id: RequestSeq(0) }.in_flight(),
        InFlight::Request
    );
    assert_eq!(
        ReplConnectionState::WaitingForResult { instruction_id: InstructionSeq(0) }.in_flight(),
        InFlight::Instruction
    );
}

#[test]
fn request_numbers_are_never_handed_out_twice() {
    let mut generator = RequestSeqGenerator::new();
    assert!(!generator.is_exhausted());
    let mut previous = generator.next();
    assert_eq!(previous, RequestSeq(0));
    for _ in 0..1000 {
        assert!(!generator.is_exhausted());
        let number = generator.next();
        assert!(number > previous);
        assert_eq!(number.0, previous.0 + 1);
        previous = number;
    }
    let connection = ReplConnection::new(Some(connected("m"))).unwrap();
    assert!(connection.can_exec());
    assert_eq!(connection.machine_name(), &MachineName("m".to_string()));
}

#[test]
fn an_abandoned_request_leaves_the_session_where_it_stood() {
    let mut connection = ReplConnection::new(Some(connected("m1"))).unwrap();
    let frame = connection.exec("1");
    let MessageToServer::Exec { request_id, .. } = frame;
    assert_eq!(request_id, RequestSeq(0));
    connection.abandon_request(request_id);
    assert_eq!(connection.state(), ReplConnectionState::Idle);
    assert_eq!(connection.machine_name(), &MachineName("m1".to_string()));

    let MessageToServer::Exec { request_id: second, .. } = connection.exec("2");
    assert_eq!(second, RequestSeq(1));
    connection.abandon_request(RequestSeq(0));
    assert_eq!(
        connection.state(),
        ReplConnectionState::WaitingForInstructionSeq { request_id: RequestSeq(1) }
    );
    connection
        .receive(MessageFromServer::ExecReceived {
            seq: InstructionSeq(4),
            request_id: RequestSeq(1),
        })
        .unwrap();
    let MessageToServer::Exec { request_id: third, .. } = connection.exec("3");
    assert_eq!(third, RequestSeq(2));
    connection.abandon_request(third);
    assert_eq!(
        connection.state(),
        ReplConnectionState::WaitingForResult { instruction_id: InstructionSeq(4) }
    );
    connection.abandon_request(third);
    assert_eq!(
        connection.state(),
        ReplConnectionState::WaitingForResult { instruction_id: InstructionSeq(4) }
    );
}

#[test]
fn a_full_handle_loses_the_oldest_output() {
    assert_eq!(OUTPUT_CAPACITY, 50);
    let mut handle = ExecResultHandle::new(InstructionSeq(1));
    assert_eq!(handle.capacity(), 50);
    for number in 0..50 {
        handle.deliver(Ok(Dispatch::Output { chunk: chunk(number, "x") }));
    }
    assert_eq!(handle.unread(), 50);
    handle.deliver(Ok(Dispatch::Output { chunk: chunk(50, "x") }));
    handle.deliver(Ok(Dispatch::Output { chunk: chunk(51, "x") }));
    assert_eq!(handle.unread(), 50);
    handle.deliver(Ok(Dispatch::Result { result: value("r", 1) }));
    let mut numbers = Vec::new();
    while let Some(output) = handle.next() {
        numbers.push(output.seq.0);
    }
    assert_eq!(numbers, (2..52).collect::<Vec<i64>>());
    assert_eq!(handle.result().unwrap(), value("r", 1));

    let mut small = ExecResultHandle::with_capacity(InstructionSeq(2), 2);
    assert_eq!(small.capacity(), 2);
    for number in 0..5 {
        small.deliver(Ok(Dispatch::Output { chunk: chunk(number, "y") }));
        if number == 1 {
            assert_eq!(small.next(), Some(chunk(0, "y")));
        }
    }
    assert_eq!(small.unread(), 2);
    assert_eq!(small.next(), Some(chunk(3, "y")));
    assert_eq!(small.next(), Some(chunk(4, "y")));
    assert_eq!(small.next(), None);
}

#[test]
fn only_the_end_of_the_socket_ends_the_reading() {
    match after_receive(Some(Ok(connected("m")))) {
        AfterReceive::Handle { message } => assert_eq!(message, connected("m")),
        other => panic!("unexpected step {:?}", other),
    }
    match after_receive(Some(Err(DecodeError::MissingField { field: "type" }))) {
        AfterReceive::Skip { error } => assert_eq!(error.to_string(), "missing field `type`"),
        other => panic!("unexpected step {:?}", other),
    }
    assert!(matches!(after_receive(None), AfterReceive::Stop));
}
