use forevervm_sdk::api::api_types::Instruction;
use forevervm_sdk::api::http_api::{
    api_machine_from_json, bool_is_false, create_machine_request_to_json,
    create_machine_response_from_json, decode_body, encode_body, exec_request_to_json,
    exec_response_from_json, list_machines_request_to_json, list_machines_response_from_json,
    whoami_from_json, ApiExecRequest, ApiExecResponse, ApiMachine, CreateMachineRequest,
    ListMachinesRequest, Tag,
};
use forevervm_sdk::api::id_types::{InstructionSeq, MachineName};
use forevervm_sdk::api::token::ApiToken;
use forevervm_sdk::api::wire::DecodeError;
use forevervm_sdk::api::ApiErrorResponse;
use forevervm_sdk::client::error::ClientError;
use forevervm_sdk::client::http::{
    api_path, authorized_request, bearer, exec_path, exec_result_path, exec_result_stream_path,
    headers, parse_error, repl_path, repl_url, Header,
};

fn machine(name: &str) -> MachineName {
    MachineName(name.to_string())
}

fn tag(key: &str, value: &str) -> Tag {
    Tag { key: key.to_string(), value: value.to_string() }
}

#[test]
fn paths_of_the_endpoints() {
    assert_eq!(api_path("/whoami"), "/v1/whoami");
    assert_eq!(api_path("/machine/new"), "/v1/machine/new");
    assert_eq!(repl_path(&machine("m1")), "/v1/machine/m1/repl");
    assert_eq!(exec_path(&machine("m1")), "/machine/m1/exec");
    assert_eq!(exec_result_path(&machine("m1"), InstructionSeq(12)), "/machine/m1/exec/12/result");
    assert_eq!(
        exec_result_stream_path(&machine("m1"), InstructionSeq(0)),
        "/v1/machine/m1/exec/0/stream-result"
    );
    assert_eq!(
        api_path(&exec_result_path(&machine("x"), InstructionSeq(-3))),
        "/v1/machine/x/exec/-3/result"
    );
}

#[test]
fn session_address_takes_the_socket_scheme() {
    let base = url::Url::parse("https://api.forevervm.com").unwrap();
    assert_eq!(
        repl_url(base, &machine("m1")).unwrap().as_str(),
        "wss://api.forevervm.com/v1/machine/m1/repl"
    );
    let base = url::Url::parse("http://localhost:8080/base/").unwrap();
    assert_eq!(
        repl_url(base, &machine("abc")).unwrap().as_str(),
        "ws://localhost:8080/v1/machine/abc/repl"
    );
}

#[test]
fn session_address_needs_http() {
    for text in ["ftp://example.com", "ws://example.com", "mailto:a@example.com", "file:///tmp/x"] {
        let base = url::Url::parse(text).unwrap();
        assert!(matches!(repl_url(base, &machine("m1")), Err(ClientError::InvalidUrl)));
    }
}

#[test]
fn token_is_shown_as_bearer() {
    let token = ApiToken { id: "id".to_string(), token: "secret".to_string() };
    assert_eq!(bearer(&token), "Bearer id.secret");
}

#[test]
fn every_request_names_the_client() {
    let sdk = Header { name: "x-forevervm-sdk", value: "rust".to_string() };
    assert_eq!(headers(None), vec![sdk.clone()]);
    assert_eq!(
        headers(Some("cargo".to_string())),
        vec![sdk.clone(), Header { name: "x-forevervm-runner", value: "cargo".to_string() }]
    );
    assert_eq!(
        headers(Some("a b\tc".to_string())),
        vec![sdk.clone(), Header { name: "x-forevervm-runner", value: "a b\tc".to_string() }]
    );
    assert_eq!(headers(Some("line\nbreak".to_string())), vec![sdk.clone()]);
    assert_eq!(
        headers(Some("caf\u{e9}".to_string())),
        vec![sdk.clone(), Header { name: "x-forevervm-runner", value: "caf\u{e9}".to_string() }]
    );
    assert_eq!(headers(Some("nul\u{0}".to_string())), vec![sdk.clone()]);
    assert_eq!(headers(Some("del\u{7f}".to_string())), vec![sdk]);
}

#[test]
fn upgrade_request_carries_the_handshake() {
    let url = url::Url::parse("wss://api.forevervm.com/v1/machine/m1/repl").unwrap();
    let token = ApiToken { id: "id".to_string(), token: "secret".to_string() };
    let request = authorized_request(&url, &token, "a2V5".to_string()).unwrap();
    assert_eq!(request.uri, "wss://api.forevervm.com/v1/machine/m1/repl");
    let expected = [
        ("authorization", "Bearer id.secret"),
        ("host", "api.forevervm.com"),
        ("connection", "Upgrade"),
        ("upgrade", "websocket"),
        ("sec-websocket-version", "13"),
        ("sec-websocket-key", "a2V5"),
    ];
    assert_eq!(request.headers.len(), expected.len());
    for (header, (name, value)) in request.headers.iter().zip(expected) {
        assert_eq!(header.name, name);
        assert_eq!(header.value, value);
    }
    let address = url::Url::parse("ws://[::1]:9000/x").unwrap();
    let request = authorized_request(&address, &token, "k".to_string()).unwrap();
    assert_eq!(request.headers[1].value, "[::1]");
    assert_eq!(request.uri, "ws://[::1]:9000/x");
}

#[test]
fn upgrade_request_needs_a_host() {
    let url = url::Url::parse("mailto:someone@example.com").unwrap();
    let token = ApiToken { id: "id".to_string(), token: "secret".to_string() };
    assert!(matches!(
        authorized_request(&url, &token, "k".to_string()),
        Err(ClientError::InvalidUrl)
    ));
}

#[test]
fn failed_response_is_a_report_or_the_body() {
    match parse_error(429, r#"{"code":"RateLimited","id":null}"#.to_string()) {
        ClientError::ApiError(error) => {
            assert_eq!(error, ApiErrorResponse { code: "RateLimited".to_string(), id: None })
        },
        other => panic!("unexpected error {:?}", other),
    }
    match parse_error(502, "Bad Gateway".to_string()) {
        ClientError::ServerResponseError { code, message } => {
            assert_eq!(code, 502);
            assert_eq!(message, "Bad Gateway");
        },
        other => panic!("unexpected error {:?}", other),
    }
    match parse_error(500, r#"{"message":"no code"}"#.to_string()) {
        ClientError::ServerResponseError { code, message } => {
            assert_eq!(code, 500);
            assert_eq!(message, r#"{"message":"no code"}"#);
        },
        other => panic!("unexpected error {:?}", other),
    }
}

#[test]
fn failures_read_in_words() {
    assert_eq!(
        ClientError::ApiError(ApiErrorResponse { code: "RateLimited".to_string(), id: None })
            .to_string(),
        "Api error: Api error: { code: RateLimited, id: None }"
    );
    assert_eq!(
        ClientError::ServerResponseError { code: 502, message: "Bad Gateway".to_string() }
            .to_string(),
        "Server responded with code 502 and message Bad Gateway"
    );
    assert_eq!(ClientError::InvalidUrl.to_string(), "Invalid URL");
    assert_eq!(
        ClientError::UrlError(url::ParseError::EmptyHost).to_string(),
        "Error parsing url: empty host"
    );
    assert_eq!(
        ClientError::DeserializeError(DecodeError::MissingField { field: "seq" }).to_string(),
        "Error deserializing response: missing field `seq`"
    );
    assert_eq!(ClientError::InstructionInterrupted.to_string(), "Instruction interrupted");
    assert_eq!(ClientError::Other("x".to_string()).to_string(), "Other error: x");
}

#[test]
fn request_bodies_are_written() {
    let request = ApiExecRequest {
        instruction: Instruction { code: "1".to_string(), timeout_seconds: 10 },
        interrupt: false,
    };
    assert_eq!(
        encode_body(&exec_request_to_json(&request)).unwrap(),
        r#"{"instruction":{"code":"1","timeout_seconds":10},"interrupt":false}"#
    );
    let request = ApiExecRequest { interrupt: true, ..request };
    assert_eq!(
        encode_body(&exec_request_to_json(&request)).unwrap(),
        r#"{"instruction":{"code":"1","timeout_seconds":10},"interrupt":true}"#
    );

    assert_eq!(
        encode_body(&create_machine_request_to_json(&CreateMachineRequest::default())).unwrap(),
        "{}"
    );
    let request = CreateMachineRequest {
        tags: vec![tag("env", "test"), tag("a", "1"), tag("env", "prod")],
        memory_mb: Some(512),
    };
    assert_eq!(
        encode_body(&create_machine_request_to_json(&request)).unwrap(),
        r#"{"memory_mb":512,"tags":{"a":"1","env":"prod"}}"#
    );
    assert_eq!(
        encode_body(&list_machines_request_to_json(&ListMachinesRequest::default())).unwrap(),
        "{}"
    );
    assert_eq!(
        encode_body(&list_machines_request_to_json(&ListMachinesRequest {
            tags: vec![tag("k", "v")]
        }))
        .unwrap(),
        r#"{"tags":{"k":"v"}}"#
    );
    assert!(bool_is_false(&false));
    assert!(!bool_is_false(&true));
}

#[test]
fn response_bodies_are_read() {
    let document = decode_body(r#"{"account":"acme"}"#).unwrap();
    assert_eq!(whoami_from_json(&document).unwrap().account, "acme");
    assert!(matches!(
        whoami_from_json(&decode_body("{}").unwrap()),
        Err(DecodeError::MissingField { field: "account" })
    ));
    assert!(matches!(decode_body("{"), Err(DecodeError::Json(_))));

    let document = decode_body(r#"{"machine_name":"m7"}"#).unwrap();
    assert_eq!(create_machine_response_from_json(&document).unwrap().machine_name, machine("m7"));

    let document = decode_body(r#"{"instruction_seq":3,"machine":"m7"}"#).unwrap();
    assert_eq!(
        exec_response_from_json(&document).unwrap(),
        ApiExecResponse {
            instruction_seq: Some(InstructionSeq(3)),
            interrupted: false,
            machine: Some(machine("m7")),
        }
    );
    let document =
        decode_body(r#"{"instruction_seq":null,"interrupted":true,"machine":null}"#).unwrap();
    assert_eq!(
        exec_response_from_json(&document).unwrap(),
        ApiExecResponse { instruction_seq: None, interrupted: true, machine: None }
    );
    assert!(matches!(
        exec_response_from_json(&decode_body(r#"{"interrupted":"yes"}"#).unwrap()),
        Err(DecodeError::InvalidField { field: "interrupted" })
    ));
    assert!(matches!(
        exec_response_from_json(&decode_body(r#"{"instruction_seq":1.5}"#).unwrap()),
        Err(DecodeError::InvalidField { field: "instruction_seq" })
    ));
}

#[test]
fn machine_lists_are_read() {
    let text = r#"{"machines":[
        {"name":"m1","created_at":"2025-01-02T03:04:05Z","running":true,
         "has_pending_instruction":false,"expires_at":null},
        {"name":"m2","created_at":"2025-02-02T03:04:05Z","running":false,
         "has_pending_instruction":true,"expires_at":"2025-03-02T03:04:05Z"}]}"#;
    let list = list_machines_response_from_json(&decode_body(text).unwrap()).unwrap();
    assert_eq!(
        list.machines,
        vec![
            ApiMachine {
                name: machine("m1"),
                created_at: "2025-01-02T03:04:05Z".to_string(),
                running: true,
                has_pending_instruction: false,
                expires_at: None,
            },
            ApiMachine {
                name: machine("m2"),
                created_at: "2025-02-02T03:04:05Z".to_string(),
                running: false,
                has_pending_instruction: true,
                expires_at: Some("2025-03-02T03:04:05Z".to_string()),
            },
        ]
    );
    let empty = list_machines_response_from_json(&decode_body(r#"{"machines":[]}"#).unwrap());
    assert!(empty.unwrap().machines.is_empty());
}

#[test]
fn the_first_bad_machine_decides() {
    let text = r#"{"machines":[
        {"name":"m1","created_at":"t","running":true,"has_pending_instruction":false},
        {"name":"m2","created_at":"t","running":"no","has_pending_instruction":false},
        {"created_at":"t","running":true,"has_pending_instruction":false}]}"#;
    assert!(matches!(
        list_machines_response_from_json(&decode_body(text).unwrap()),
        Err(DecodeError::InvalidField { field: "running" })
    ));
    assert!(matches!(
        list_machines_response_from_json(&decode_body("{}").unwrap()),
        Err(DecodeError::MissingField { field: "machines" })
    ));
    assert!(matches!(
        list_machines_response_from_json(&decode_body(r#"{"machines":{}}"#).unwrap()),
        Err(DecodeError::InvalidField { field: "machines" })
    ));
    assert!(matches!(
        api_machine_from_json(&decode_body(r#"{"name":"m"}"#).unwrap()),
        Err(DecodeError::MissingField { field: "created_at" })
    ));
}
