use forevervm_sdk::api::api_types::{ExecResultType, Instruction};
use forevervm_sdk::api::http_api::{
    create_machine_request_to_json, create_machine_response_from_json, decode_body, encode_body,
    exec_request_to_json, exec_response_from_json, list_machines_request_to_json,
    list_machines_response_from_json, whoami_from_json, ApiExecRequest, CreateMachineRequest,
    ListMachinesRequest,
};
use forevervm_sdk::api::id_types::{MachineName, RequestSeq};
use forevervm_sdk::api::protocol::{MessageFromServer, MessageToServer, StandardOutputStream};
use forevervm_sdk::api::token::ApiToken;
use forevervm_sdk::api::wire::{
    decode_exec_result_response, decode_message_from_server, decode_message_to_server,
    encode_message_to_server,
};
use forevervm_sdk::client::http::{
    api_path, bearer, exec_path, exec_result_path, exec_result_stream_path, repl_url,
};
use forevervm_sdk::client::repl::{Dispatch, ExecResultHandle, ReplConnection};
use forevervm_sdk::client::stream::{decode_stream_chunk, StreamDecoder};

/// The service that these tests talk to: it answers from a script.
struct Service {
    machine: MachineName,
    next_instruction: i64,
}

impl Service {
    fn new() -> Service {
        Service { machine: MachineName("machine-1".to_string()), next_instruction: 0 }
    }

    fn whoami(&self, authorization: &str) -> String {
        assert_eq!(authorization, "Bearer id.secret");
        r#"{"account":"acme"}"#.to_string()
    }

    fn create_machine(&self, body: &str) -> String {
        assert_eq!(body, "{}");
        format!(r#"{{"machine_name":"{}"}}"#, self.machine.0)
    }

    fn list_machines(&self, body: &str) -> String {
        assert_eq!(body, "{}");
        format!(
            r#"{{"machines":[{{"name":"other","created_at":"2025-01-01T00:00:00Z","running":false,"has_pending_instruction":false,"expires_at":null}},{{"name":"{}","created_at":"2025-01-02T00:00:00Z","running":true,"has_pending_instruction":false,"expires_at":null}}]}}"#,
            self.machine.0
        )
    }

    fn exec(&mut self, path: &str, body: &str) -> String {
        assert_eq!(path, "/v1/machine/machine-1/exec");
        let document = decode_body(body).unwrap();
        assert_eq!(document["interrupt"], serde_json::Value::from(false));
        assert_eq!(document["instruction"]["timeout_seconds"], serde_json::Value::from(10));
        let seq = self.next_instruction;
        self.next_instruction += 1;
        format!(r#"{{"instruction_seq":{},"machine":"{}"}}"#, seq, self.machine.0)
    }

    /// The frames that the socket sends for a request.
    fn frames(&mut self, frame: &str) -> Vec<String> {
        let MessageToServer::Exec { instruction, request_id } =
            decode_message_to_server(frame).unwrap();
        let seq = self.next_instruction;
        self.next_instruction += 1;
        let mut frames =
            vec![format!(r#"{{"type":"exec_received","seq":{},"request_id":{}}}"#, seq, request_id.0)];
        if instruction.code == "for i in range(5):\n  print(i)" {
            for i in 0..5 {
                frames.push(format!(
                    r#"{{"type":"output","instruction_id":{},"chunk":{{"stream":"stdout","data":"{}","seq":{}}}}}"#,
                    seq, i, i
                ));
            }
            frames.push(format!(
                r#"{{"type":"result","instruction_id":{},"result":{{"value":null,"runtime_ms":3}}}}"#,
                seq
            ));
        } else {
            assert_eq!(instruction.code, "1 / 0");
            frames.push(format!(
                r#"{{"type":"result","instruction_id":{},"result":{{"error":"Traceback (most recent call last):\nZeroDivisionError: division by zero","runtime_ms":1}}}}"#,
                seq
            ).replace('\n', "\\n"));
        }
        frames
    }
}

fn get_test_credentials() -> (url::Url, ApiToken) {
    (url::Url::parse("https://api.forevervm.com").unwrap(), ApiToken::new("id.secret".to_string()))
}

#[test]
fn test_whoami() {
    let (_api_base, token) = get_test_credentials();
    let service = Service::new();
    assert_eq!(api_path("/whoami"), "/v1/whoami");
    let body = service.whoami(&bearer(&token));
    let whoami = whoami_from_json(&decode_body(&body).unwrap()).expect("whoami call failed");
    assert!(!whoami.account.is_empty());
}

#[test]
fn test_create_machine() {
    let service = Service::new();
    let request = encode_body(&create_machine_request_to_json(&CreateMachineRequest::default()))
        .unwrap();
    let machine = create_machine_response_from_json(
        &decode_body(&service.create_machine(&request)).unwrap(),
    )
    .expect("failed to create machine");
    let machine_name = machine.machine_name;
    assert!(!machine_name.to_string().is_empty());

    let request =
        encode_body(&list_machines_request_to_json(&ListMachinesRequest::default())).unwrap();
    let machines =
        list_machines_response_from_json(&decode_body(&service.list_machines(&request)).unwrap())
            .expect("failed to list machines");
    assert!(machines.machines.iter().any(|m| m.name == machine_name));
}

#[test]
fn test_exec() {
    let mut service = Service::new();
    let machine_name = service.machine.clone();
    let code = "print(123) or 567";
    let request = ApiExecRequest {
        instruction: Instruction { code: code.to_string(), timeout_seconds: 10 },
        interrupt: false,
    };
    let body = encode_body(&exec_request_to_json(&request)).unwrap();
    let answer = service.exec(&api_path(&exec_path(&machine_name)), &body);
    let result = exec_response_from_json(&decode_body(&answer).unwrap()).expect("exec failed");
    let instruction = result.instruction_seq.expect("instruction seq missing");
    assert_eq!(
        api_path(&exec_result_path(&machine_name, instruction)),
        "/v1/machine/machine-1/exec/0/result"
    );
    let exec_result = decode_exec_result_response(
        r#"{"instruction_id":0,"result":{"value":"567","data":null,"runtime_ms":12}}"#,
    )
    .expect("failed to get exec result");
    assert_eq!(
        exec_result.result.result,
        ExecResultType::Value { value: Some("567".to_string()), data: None }
    );
}

#[test]
fn test_exec_stream() {
    let machine_name = MachineName("machine-1".to_string());
    assert_eq!(
        exec_result_stream_path(&machine_name, forevervm_sdk::api::id_types::InstructionSeq(0)),
        "/v1/machine/machine-1/exec/0/stream-result"
    );
    let mut chunks: Vec<String> = Vec::new();
    for i in 0..10 {
        chunks.push(format!(
            "{{\"type\":\"output\",\"instruction_id\":0,\"chunk\":{{\"stream\":\"stdout\",\"data\":\"{}\",\"seq\":{}}}}}\n",
            i, i
        ));
    }
    chunks.push(
        "\n{\"type\":\"result\",\"instruction_id\":0,\"result\":{\"value\":\"'done'\",\"runtime_ms\":7}}\n"
            .to_string(),
    );
    let body = chunks.concat();
    let (first, second) = body.split_at(chunks[0].len() + chunks[1].len() / 2);

    let mut i = 0;
    let mut results = 0;
    let mut decoder = StreamDecoder::new();
    let mut stream = decoder.push(first.as_bytes());
    stream.extend(decoder.push(second.as_bytes()));
    stream.extend(decoder.finish());
    for items in [stream] {
        for msg in items {
            match msg {
                Ok(MessageFromServer::Output { chunk, .. }) => {
                    assert_eq!(chunk.data, format!("{}", i));
                    i += 1;
                },
                Ok(MessageFromServer::Result(chunk)) => {
                    assert_eq!(
                        chunk.result.result,
                        ExecResultType::Value { value: Some("'done'".to_string()), data: None }
                    );
                    results += 1;
                },
                _ => {
                    panic!("unexpected message");
                },
            }
        }
    }
    assert_eq!(i, 10);
    assert_eq!(results, 1);
}

#[test]
fn test_exec_stream_image() {
    let body = concat_lines(&[
        r#"{"type":"output","instruction_id":2,"chunk":{"stream":"stdout","data":"Figure(640x480)","seq":0}}"#,
        r#"{"type":"result","instruction_id":2,"result":{"value":null,"data":{"png":"iVBORw0KGgo=","width":640,"height":480,"dpi":100.0},"runtime_ms":250}}"#,
    ]);
    let items = decode_stream_chunk(body.as_bytes());
    assert_eq!(items.len(), 2);
    for chunk in &items {
        assert!(chunk.is_ok(), "chunk should parse as JSON");
    }
    match &items[1] {
        Ok(MessageFromServer::Result(response)) => match &response.result.result {
            ExecResultType::Value { value: None, data: Some(data) } => {
                assert_eq!(data["png"], serde_json::Value::from("iVBORw0KGgo="));
                assert_eq!(data["width"], serde_json::Value::from(640));
            },
            other => panic!("unexpected result {:?}", other),
        },
        other => panic!("unexpected item {:?}", other),
    }
}

fn concat_lines(lines: &[&str]) -> String {
    let mut text = String::new();
    for line in lines {
        text.push_str(line);
        text.push('\n');
    }
    text
}

#[test]
fn test_repl() {
    let (api_base, _token) = get_test_credentials();
    let mut service = Service::new();
    let machine_name = service.machine.clone();
    assert_eq!(
        repl_url(api_base, &machine_name).unwrap().as_str(),
        "wss://api.forevervm.com/v1/machine/machine-1/repl"
    );
    let first =
        decode_message_from_server(r#"{"type":"connected","machine_name":"machine-1"}"#).unwrap();
    let mut repl = ReplConnection::new(Some(first)).expect("failed to create REPL");
    assert_eq!(repl.machine_name, machine_name);

    let code = "for i in range(5):\n  print(i)";
    let frame = encode_message_to_server(&repl.exec(code)).unwrap();
    let mut result: Option<ExecResultHandle> = None;
    for text in service.frames(&frame) {
        let dispatched = repl.receive(decode_message_from_server(&text).unwrap());
        match dispatched {
            Ok(Dispatch::HandleReady { instruction_id }) => {
                result = Some(ExecResultHandle::new(instruction_id))
            },
            other => result.as_mut().expect("failed to execute code").deliver(other),
        }
    }
    let mut result = result.expect("failed to execute code");

    let mut outputs = Vec::new();
    while let Some(output) = result.next() {
        outputs.push(output);
    }

    assert_eq!(outputs.len(), 5);
    for (i, output) in outputs.iter().enumerate() {
        assert_eq!(output.stream, StandardOutputStream::Stdout);
        assert_eq!(output.data, i.to_string());
        assert_eq!(output.seq, (i as i64).into());
    }

    let code = "1 / 0";
    let request = repl.exec(code);
    assert!(matches!(&request, MessageToServer::Exec { request_id: RequestSeq(1), .. }));
    let frame = encode_message_to_server(&request).unwrap();
    let mut exec_result: Option<ExecResultHandle> = None;
    for text in service.frames(&frame) {
        let dispatched = repl.receive(decode_message_from_server(&text).unwrap());
        match dispatched {
            Ok(Dispatch::HandleReady { instruction_id }) => {
                exec_result = Some(ExecResultHandle::new(instruction_id))
            },
            other => exec_result.as_mut().expect("failed to execute code").deliver(other),
        }
    }
    let exec_result = exec_result.expect("failed to execute code");

    let result = exec_result.result().unwrap();
    let ExecResultType::Error { error } = result.result else {
        panic!("Expected error");
    };

    assert!(error.contains("ZeroDivisionError"));
    assert!(error.contains("division by zero"));
}
