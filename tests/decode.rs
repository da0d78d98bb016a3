use notebook_assist::content::{
    list_or_string_to_string, DisplayData, Error, ExecuteInput, ExecuteResult, KernelStatus,
    Status, Stream, StreamName, Transient, UpdateDisplayData,
};
use notebook_assist::field::{Field, FieldError};
use notebook_assist::header::{Header, Timestamp};
use notebook_assist::json::{JsonNumber, JsonValue};
use notebook_assist::message::{DecodeError, DynamicEnvelope, Message, MessageKind, Metadata};

fn s(text: &str) -> JsonValue {
    JsonValue::Str(text.to_string())
}

fn num(n: i128) -> JsonValue {
    JsonValue::Number(JsonNumber::Int(n))
}

fn obj(entries: Vec<(&str, JsonValue)>) -> JsonValue {
    JsonValue::Object(entries.into_iter().map(|(k, v)| (k.to_string(), v)).collect())
}

fn header(msg_id: &str, msg_type: &str) -> JsonValue {
    obj(vec![
        ("msg_id", s(msg_id)),
        ("session", s("session-1")),
        ("username", s("kernel")),
        ("date", s("2024-01-01T00:00:00.000Z")),
        ("msg_type", s(msg_type)),
        ("version", s("5.3")),
    ])
}

fn envelope(msg_type: &str, parent: Option<JsonValue>, content: JsonValue) -> JsonValue {
    let mut entries = vec![("header", header("m-1", msg_type))];
    if let Some(p) = parent {
        entries.push(("parent_header", p));
    }
    entries.push(("metadata", obj(vec![])));
    entries.push(("content", content));
    obj(entries)
}

fn with_parent(msg_type: &str, content: JsonValue) -> JsonValue {
    envelope(msg_type, Some(header("parent-1", "execute_request")), content)
}

fn display_content(transient: Option<JsonValue>) -> JsonValue {
    let mut entries = vec![
        ("data", obj(vec![("text/plain", s("2"))])),
        ("metadata", obj(vec![])),
    ];
    if let Some(t) = transient {
        entries.push(("transient", t));
    }
    obj(entries)
}

fn decode_display(transient: Option<JsonValue>) -> Result<DisplayData, FieldError> {
    DisplayData::from_json(display_content(transient))
}

#[test]
fn header_reads_all_fields_and_the_date() {
    let h = Header::from_json(header("abc", "status")).unwrap();
    assert_eq!(h.msg_id, "abc");
    assert_eq!(h.session, "session-1");
    assert_eq!(h.username, "kernel");
    assert_eq!(h.msg_type, "status");
    assert_eq!(h.version, "5.3");
    assert_eq!(h.date, Timestamp { seconds: 1704067200, nanos: 0 });
}

#[test]
fn header_date_with_offset_and_fraction() {
    let h = obj(vec![
        ("msg_id", s("a")),
        ("session", s("b")),
        ("username", s("c")),
        ("date", s("2024-01-01T01:00:00.5+01:00")),
        ("msg_type", s("status")),
        ("version", s("5.3")),
    ]);
    let h = Header::from_json(h).unwrap();
    assert_eq!(h.date, Timestamp { seconds: 1704067200, nanos: 500_000_000 });
}

#[test]
fn header_with_bad_date_is_invalid() {
    let h = obj(vec![
        ("msg_id", s("a")),
        ("session", s("b")),
        ("username", s("c")),
        ("date", s("yesterday")),
        ("msg_type", s("status")),
        ("version", s("5.3")),
    ]);
    assert_eq!(Header::from_json(h), Err(FieldError::InvalidValue(Field::Date)));
}

#[test]
fn header_without_msg_type_is_missing_it() {
    let h = obj(vec![
        ("msg_id", s("a")),
        ("session", s("b")),
        ("username", s("c")),
        ("date", s("2024-01-01T00:00:00Z")),
        ("version", s("5.3")),
    ]);
    assert_eq!(Header::from_json(h), Err(FieldError::Missing(Field::MsgType)));
}

#[test]
fn new_header_is_fresh() {
    let a = Header::new("execute_request".to_string());
    let b = Header::new("execute_request".to_string());
    assert_eq!(a.msg_type, "execute_request");
    assert_eq!(a.version, "5.3");
    assert_eq!(a.username, "kernel_sidecar");
    assert_eq!(a.msg_id.len(), 36);
    assert_eq!(a.session.len(), 36);
    assert_ne!(a.msg_id, a.session);
    assert_ne!(a.msg_id, b.msg_id);
    assert!(a.date.seconds > 1_600_000_000);
}

#[test]
fn display_data_decodes_to_its_variant() {
    let m = Message::deserialize(with_parent("display_data", display_content(Some(obj(vec![("display_id", s("D"))])))))
        .unwrap();
    let direct = decode_display(Some(obj(vec![("display_id", s("D"))]))).unwrap();
    match m {
        Message::DisplayData(env) => {
            assert_eq!(env.content, direct);
            assert_eq!(env.header.msg_type, "display_data");
            assert_eq!(env.parent_header.msg_id, "parent-1");
            assert_eq!(env.metadata, Some(Metadata(obj(vec![]))));
        },
        other => panic!("unexpected {:?}", other),
    }
}

#[test]
fn update_display_data_decodes_to_its_variant() {
    let m = Message::deserialize(with_parent("update_display_data", display_content(Some(obj(vec![("display_id", s("D"))])))))
        .unwrap();
    let direct = UpdateDisplayData::from_json(display_content(Some(obj(vec![("display_id", s("D"))])))).unwrap();
    match m {
        Message::UpdateDisplayData(env) => assert_eq!(env.content, direct),
        other => panic!("unexpected {:?}", other),
    }
}

#[test]
fn execute_result_decodes_to_its_variant() {
    let content = || obj(vec![
        ("execution_count", num(3)),
        ("data", obj(vec![("text/plain", s("2"))])),
        ("metadata", obj(vec![])),
    ]);
    let m = Message::deserialize(with_parent("execute_result", content())).unwrap();
    let direct = ExecuteResult::from_json(content()).unwrap();
    assert_eq!(direct.execution_count, 3);
    assert_eq!(direct.data, vec![("text/plain".to_string(), s("2"))]);
    match m {
        Message::ExecuteResult(env) => assert_eq!(env.content, direct),
        other => panic!("unexpected {:?}", other),
    }
}

#[test]
fn status_decodes_to_its_variant() {
    for (name, state) in [("busy", KernelStatus::Busy), ("idle", KernelStatus::Idle), ("starting", KernelStatus::Starting)] {
        let m = Message::deserialize(with_parent("status", obj(vec![("execution_state", s(name))]))).unwrap();
        match m {
            Message::Status(env) => assert_eq!(env.content, Status { execution_state: state }),
            other => panic!("unexpected {:?}", other),
        }
    }
}

#[test]
fn status_with_unknown_state_is_a_content_error() {
    let r = Message::deserialize(with_parent("status", obj(vec![("execution_state", s("sleeping"))])));
    assert_eq!(
        r,
        Err(DecodeError::MalformedContent {
            kind: MessageKind::Status,
            cause: FieldError::InvalidValue(Field::ExecutionState)
        })
    );
}

#[test]
fn stream_decodes_to_its_variant() {
    let m = Message::deserialize(with_parent("stream", obj(vec![("name", s("stderr")), ("text", s("oops"))]))).unwrap();
    match m {
        Message::Stream(env) => assert_eq!(env.content, Stream { name: StreamName::Stderr, text: "oops".to_string() }),
        other => panic!("unexpected {:?}", other),
    }
}

#[test]
fn stream_with_unknown_name_is_a_content_error() {
    let r = Message::deserialize(with_parent("stream", obj(vec![("name", s("stdin")), ("text", s("x"))])));
    assert_eq!(
        r,
        Err(DecodeError::MalformedContent { kind: MessageKind::Stream, cause: FieldError::InvalidValue(Field::Name) })
    );
}

#[test]
fn stream_text_list_and_string_read_the_same() {
    let from_string = Stream::from_json(obj(vec![("name", s("stdout")), ("text", s("a\nb"))])).unwrap();
    let from_list =
        Stream::from_json(obj(vec![("name", s("stdout")), ("text", JsonValue::Array(vec![s("a"), s("b")]))])).unwrap();
    assert_eq!(from_string.text, "a\nb");
    assert_eq!(from_list.text, "a\nb");
    assert_eq!(from_string, from_list);
}

#[test]
fn list_of_lines_joins_with_newlines() {
    let lines = JsonValue::Array(vec![s("x = 1"), JsonValue::Null, s("print(x)")]);
    assert_eq!(list_or_string_to_string(&lines), Ok("x = 1\n\nprint(x)".to_string()));
    assert_eq!(list_or_string_to_string(&JsonValue::Array(vec![])), Ok(String::new()));
    assert_eq!(list_or_string_to_string(&s("one")), Ok("one".to_string()));
}

#[test]
fn list_with_a_number_is_an_invalid_source() {
    let lines = JsonValue::Array(vec![s("a"), num(1)]);
    assert_eq!(list_or_string_to_string(&lines), Err(FieldError::InvalidSourceFormat));
}

#[test]
fn other_source_kinds_are_invalid() {
    assert_eq!(list_or_string_to_string(&num(1)), Err(FieldError::InvalidSourceFormat));
    assert_eq!(list_or_string_to_string(&JsonValue::Null), Err(FieldError::InvalidSourceFormat));
    assert_eq!(list_or_string_to_string(&JsonValue::Bool(true)), Err(FieldError::InvalidSourceFormat));
    assert_eq!(list_or_string_to_string(&obj(vec![])), Err(FieldError::InvalidSourceFormat));
}

#[test]
fn stream_without_text_is_missing_it() {
    assert_eq!(Stream::from_json(obj(vec![("name", s("stdout"))])), Err(FieldError::Missing(Field::Text)));
}

#[test]
fn execute_input_decodes_to_its_variant() {
    let m = Message::deserialize(with_parent("execute_input", obj(vec![("code", s("1+1")), ("execution_count", num(1))])))
        .unwrap();
    match m {
        Message::ExecuteInput(env) => {
            assert_eq!(env.content, ExecuteInput { code: "1+1".to_string(), execution_count: 1 })
        },
        other => panic!("unexpected {:?}", other),
    }
}

#[test]
fn execution_count_must_fit_a_u32() {
    let neg = ExecuteInput::from_json(obj(vec![("code", s("x")), ("execution_count", num(-1))]));
    assert_eq!(neg, Err(FieldError::InvalidValue(Field::ExecutionCount)));
    let big = ExecuteInput::from_json(obj(vec![("code", s("x")), ("execution_count", num(4294967296))]));
    assert_eq!(big, Err(FieldError::InvalidValue(Field::ExecutionCount)));
    let max = ExecuteInput::from_json(obj(vec![("code", s("x")), ("execution_count", num(4294967295))]));
    assert_eq!(max.unwrap().execution_count, u32::MAX);
    let float = ExecuteInput::from_json(obj(vec![
        ("code", s("x")),
        ("execution_count", JsonValue::Number(JsonNumber::Float("1.5".to_string()))),
    ]));
    assert_eq!(float, Err(FieldError::WrongType(Field::ExecutionCount)));
}

#[test]
fn error_decodes_to_its_variant() {
    let content = obj(vec![
        ("ename", s("ZeroDivisionError")),
        ("evalue", s("division by zero")),
        ("traceback", JsonValue::Array(vec![s("line 1"), s("line 2")])),
    ]);
    let m = Message::deserialize(with_parent("error", content)).unwrap();
    match m {
        Message::Error(env) => assert_eq!(
            env.content,
            Error {
                ename: "ZeroDivisionError".to_string(),
                evalue: "division by zero".to_string(),
                traceback: vec!["line 1".to_string(), "line 2".to_string()],
            }
        ),
        other => panic!("unexpected {:?}", other),
    }
}

#[test]
fn error_with_a_non_string_traceback_line_is_a_wrong_type() {
    let content = obj(vec![
        ("ename", s("E")),
        ("evalue", s("v")),
        ("traceback", JsonValue::Array(vec![s("line 1"), num(2)])),
    ]);
    assert_eq!(Error::from_json(content), Err(FieldError::WrongType(Field::Traceback)));
}

#[test]
fn unknown_types_pass_through_with_their_content() {
    for t in ["comm_open", "", "garbage!!", "Display_Data", "shutdown_reply"] {
        let content = || obj(vec![("anything", JsonValue::Array(vec![num(1), JsonValue::Bool(false)]))]);
        let m = Message::deserialize(envelope(t, None, content())).unwrap();
        match m {
            Message::UnknownType(DynamicEnvelope { header, parent_header, content: c, .. }) => {
                assert_eq!(header.msg_type, t);
                assert_eq!(parent_header, None);
                assert_eq!(c, content());
            },
            other => panic!("unexpected {:?}", other),
        }
    }
}

#[test]
fn unknown_type_with_content_any_schema_would_refuse() {
    let m = Message::deserialize(with_parent("comm_msg", s("not an object"))).unwrap();
    match m {
        Message::UnknownType(d) => assert_eq!(d.content, s("not an object")),
        other => panic!("unexpected {:?}", other),
    }
}

#[test]
fn transient_empty_null_and_absent_mean_none() {
    assert_eq!(decode_display(Some(obj(vec![]))).unwrap().transient, None);
    assert_eq!(decode_display(Some(JsonValue::Null)).unwrap().transient, None);
    assert_eq!(decode_display(None).unwrap().transient, None);
}

#[test]
fn transient_with_display_id_is_kept() {
    assert_eq!(
        decode_display(Some(obj(vec![("display_id", s("x"))]))).unwrap().transient,
        Some(Transient { display_id: "x".to_string() })
    );
}

#[test]
fn transient_without_display_id_is_an_error() {
    assert_eq!(
        decode_display(Some(obj(vec![("foo", num(1))]))),
        Err(FieldError::Missing(Field::DisplayId))
    );
    assert_eq!(decode_display(Some(s("x"))), Err(FieldError::WrongType(Field::Transient)));
}

#[test]
fn missing_parent_header_on_a_known_type_is_an_error() {
    let r = Message::deserialize(envelope("display_data", None, display_content(None)));
    assert_eq!(
        r,
        Err(DecodeError::MalformedContent {
            kind: MessageKind::DisplayData,
            cause: FieldError::Missing(Field::ParentHeader)
        })
    );
    let r = Message::deserialize(envelope("display_data", Some(obj(vec![])), display_content(None)));
    assert_eq!(
        r,
        Err(DecodeError::MalformedContent {
            kind: MessageKind::DisplayData,
            cause: FieldError::Missing(Field::ParentHeader)
        })
    );
}

#[test]
fn content_that_is_not_an_object_is_a_wrong_type() {
    let r = Message::deserialize(with_parent("execute_input", s("1+1")));
    assert_eq!(
        r,
        Err(DecodeError::MalformedContent {
            kind: MessageKind::ExecuteInput,
            cause: FieldError::WrongType(Field::Content)
        })
    );
}

#[test]
fn display_without_data_is_missing_it() {
    let r = Message::deserialize(with_parent("display_data", obj(vec![("metadata", obj(vec![]))])));
    assert_eq!(
        r,
        Err(DecodeError::MalformedContent { kind: MessageKind::DisplayData, cause: FieldError::Missing(Field::Data) })
    );
}

#[test]
fn envelope_errors() {
    assert_eq!(Message::deserialize(JsonValue::Array(vec![])), Err(DecodeError::NotAnObject));
    assert_eq!(
        Message::deserialize(obj(vec![("content", obj(vec![]))])),
        Err(DecodeError::MalformedEnvelope(FieldError::Missing(Field::Header)))
    );
    assert_eq!(
        Message::deserialize(obj(vec![("header", header("a", "status"))])),
        Err(DecodeError::MalformedEnvelope(FieldError::Missing(Field::Content)))
    );
    assert_eq!(
        Message::deserialize(obj(vec![("header", s("h")), ("content", obj(vec![]))])),
        Err(DecodeError::MalformedHeader(FieldError::WrongType(Field::Header)))
    );
    assert_eq!(
        Message::deserialize(envelope("status", Some(s("p")), obj(vec![]))),
        Err(DecodeError::MalformedEnvelope(FieldError::WrongType(Field::ParentHeader)))
    );
    assert_eq!(
        Message::deserialize(envelope("status", Some(obj(vec![("msg_id", s("p"))])), obj(vec![]))),
        Err(DecodeError::MalformedParentHeader(FieldError::Missing(Field::Session)))
    );
}

#[test]
fn header_without_msg_type_fails_the_envelope() {
    let h = obj(vec![
        ("msg_id", s("a")),
        ("session", s("b")),
        ("username", s("c")),
        ("date", s("2024-01-01T00:00:00Z")),
        ("version", s("5.3")),
    ]);
    assert_eq!(
        Message::deserialize(obj(vec![("header", h), ("content", obj(vec![]))])),
        Err(DecodeError::MalformedHeader(FieldError::Missing(Field::MsgType)))
    );
}

#[test]
fn null_metadata_is_none() {
    let v = obj(vec![
        ("header", header("a", "comm_open")),
        ("metadata", JsonValue::Null),
        ("content", obj(vec![])),
    ]);
    match Message::deserialize(v).unwrap() {
        Message::UnknownType(d) => assert_eq!(d.metadata, None),
        other => panic!("unexpected {:?}", other),
    }
}

#[test]
fn field_keys_are_the_wire_names() {
    assert_eq!(Field::ParentHeader.key(), "parent_header");
    assert_eq!(Field::ExecutionCount.key(), "execution_count");
    assert_eq!(Field::DisplayId.key(), "display_id");
}
