use forevervm_sdk::api::api_types::{ApiExecResultResponse, ExecResult, ExecResultType};
use forevervm_sdk::api::id_types::{InstructionSeq, MachineOutputSeq};
use forevervm_sdk::api::protocol::{
    MessageFromServer, MessageLevel, StandardOutput, StandardOutputStream,
};
use forevervm_sdk::api::wire::DecodeError;
use forevervm_sdk::client::error::ClientError;
use forevervm_sdk::client::stream::{
    decode_stream_chunk, decode_stream_line, decode_stream_text, StreamDecoder,
};

fn output(seq: i64, data: &str) -> MessageFromServer {
    MessageFromServer::Output {
        chunk: StandardOutput {
            stream: StandardOutputStream::Stdout,
            data: data.to_string(),
            seq: MachineOutputSeq(seq),
        },
        instruction_id: InstructionSeq(1),
    }
}

fn output_line(seq: i64, data: &str) -> String {
    format!(
        r#"{{"type":"output","instruction_id":1,"chunk":{{"stream":"stdout","data":"{}","seq":{}}}}}"#,
        data, seq
    )
}

#[test]
fn blank_lines_hold_nothing() {
    assert!(decode_stream_line("").is_none());
    assert!(decode_stream_line("   ").is_none());
    assert!(decode_stream_line("\t \u{a0}\u{2003}").is_none());
    assert!(decode_stream_text("").is_empty());
    assert!(decode_stream_text("\n\n  \r\n\t\n").is_empty());
    assert!(decode_stream_chunk(b"").is_empty());
}

#[test]
fn a_line_is_one_message() {
    let item = decode_stream_line(&output_line(0, "0")).unwrap();
    assert_eq!(item.unwrap(), output(0, "0"));
    let padded = format!("  {}  ", output_line(2, "x"));
    assert_eq!(decode_stream_line(&padded).unwrap().unwrap(), output(2, "x"));
}

#[test]
fn lines_come_out_in_order() {
    let text = format!(
        "{}\n\n{}\r\n   \n{}",
        output_line(0, "a"),
        output_line(1, "b"),
        r#"{"type":"result","instruction_id":1,"result":{"value":"'done'","runtime_ms":5}}"#
    );
    let items = decode_stream_chunk(text.as_bytes());
    assert_eq!(items.len(), 3);
    let messages: Vec<MessageFromServer> = items.into_iter().map(|item| item.unwrap()).collect();
    assert_eq!(
        messages,
        vec![
            output(0, "a"),
            output(1, "b"),
            MessageFromServer::Result(ApiExecResultResponse {
                instruction_id: InstructionSeq(1),
                result: ExecResult {
                    result: ExecResultType::Value {
                        value: Some("'done'".to_string()),
                        data: None
                    },
                    runtime_ms: 5,
                },
            }),
        ]
    );
}

#[test]
fn a_bad_line_is_an_item_and_the_stream_goes_on() {
    let text = format!("{}\nnot json\n{{\"type\":\"bogus\"}}\n{}\n", output_line(0, "a"), output_line(1, "b"));
    let items = decode_stream_text(&text);
    assert_eq!(items.len(), 4);
    assert_eq!(items[0].as_ref().unwrap(), &output(0, "a"));
    assert!(matches!(
        &items[1],
        Err(ClientError::DeserializeError(DecodeError::Json(_)))
    ));
    assert!(matches!(
        &items[2],
        Err(ClientError::DeserializeError(DecodeError::UnknownVariant { field: "type", variant }))
            if variant == "bogus"
    ));
    assert_eq!(items[3].as_ref().unwrap(), &output(1, "b"));
}

#[test]
fn bytes_that_are_no_utf8_are_replaced() {
    let mut bytes: Vec<u8> = Vec::new();
    bytes.extend_from_slice(br#"{"type":"message","message":"a"#);
    bytes.push(0xff);
    bytes.extend_from_slice(br#"b","level":"info"}"#);
    bytes.push(b'\n');
    let items = decode_stream_chunk(&bytes);
    assert_eq!(items.len(), 1);
    assert_eq!(
        items[0].as_ref().unwrap(),
        &MessageFromServer::Message {
            message: "a\u{fffd}b".to_string(),
            level: MessageLevel::Info
        }
    );
}

#[test]
fn text_in_other_scripts_is_read_as_it_is() {
    let text = r#"{"type":"message","message":"héllo 名前","level":"error"}"#;
    let items = decode_stream_chunk(text.as_bytes());
    assert_eq!(
        items[0].as_ref().unwrap(),
        &MessageFromServer::Message {
            message: "héllo 名前".to_string(),
            level: MessageLevel::Error
        }
    );
}

#[test]
fn a_carriage_return_alone_ends_no_line() {
    let text = format!("{}\r{}", output_line(0, "a"), output_line(1, "b"));
    let items = decode_stream_text(&text);
    assert_eq!(items.len(), 1);
    assert!(matches!(&items[0], Err(ClientError::DeserializeError(DecodeError::Json(_)))));
}

fn body() -> Vec<u8> {
    let mut bytes: Vec<u8> = Vec::new();
    bytes.extend_from_slice(output_line(0, "a").as_bytes());
    bytes.extend_from_slice(b"\n\n");
    bytes.extend_from_slice(
        "{\"type\":\"message\",\"message\":\"h\u{e9}llo \u{540d}\",\"level\":\"info\"}".as_bytes(),
    );
    bytes.extend_from_slice(b"\r\nnot json\n  \n");
    bytes.extend_from_slice(output_line(1, "b").as_bytes());
    bytes
}

fn views(items: Vec<Result<MessageFromServer, ClientError>>) -> Vec<String> {
    items
        .into_iter()
        .map(|item| match item {
            Ok(message) => format!("{:?}", message),
            Err(error) => error.to_string(),
        })
        .collect()
}

#[test]
fn decoder_carries_a_line_over_chunks() {
    let mut decoder = StreamDecoder::new();
    let line = output_line(0, "a");
    let (first, second) = line.split_at(10);
    assert!(decoder.push(first.as_bytes()).is_empty());
    assert!(decoder.push(second.as_bytes()).is_empty());
    let items = decoder.push(b"\n");
    assert_eq!(items.len(), 1);
    assert_eq!(items[0].as_ref().unwrap(), &output(0, "a"));
    assert!(decoder.finish().is_empty());
}

#[test]
fn decoder_gives_the_last_line_at_the_end() {
    let mut decoder = StreamDecoder::new();
    let text = format!("{}\n{}", output_line(0, "a"), output_line(1, "b"));
    let items = decoder.push(text.as_bytes());
    assert_eq!(items.len(), 1);
    assert_eq!(items[0].as_ref().unwrap(), &output(0, "a"));
    let items = decoder.finish();
    assert_eq!(items.len(), 1);
    assert_eq!(items[0].as_ref().unwrap(), &output(1, "b"));
    assert!(StreamDecoder::new().finish().is_empty());
    let mut blank = StreamDecoder::new();
    assert!(blank.push(b"  ").is_empty());
    assert!(blank.finish().is_empty());
}

#[test]
fn items_do_not_depend_on_where_the_body_is_cut() {
    let bytes = body();
    let whole = views(decode_stream_chunk(&bytes));
    assert_eq!(whole.len(), 4);
    assert_eq!(whole[0], format!("{:?}", output(0, "a")));
    assert_eq!(
        whole[1],
        format!(
            "{:?}",
            MessageFromServer::Message {
                message: "h\u{e9}llo \u{540d}".to_string(),
                level: MessageLevel::Info
            }
        )
    );
    assert_eq!(whole[3], format!("{:?}", output(1, "b")));
    for cut in 0..=bytes.len() {
        let mut decoder = StreamDecoder::new();
        let mut items = decoder.push(&bytes[..cut]);
        items.extend(decoder.push(&bytes[cut..]));
        items.extend(decoder.finish());
        assert_eq!(views(items), whole, "cut at {}", cut);
    }
    let mut decoder = StreamDecoder::new();
    let mut items = Vec::new();
    for byte in &bytes {
        items.extend(decoder.push(&[*byte]));
    }
    items.extend(decoder.finish());
    assert_eq!(views(items), whole);
}
