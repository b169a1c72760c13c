use essrpc_json::json::Json;
use essrpc_json::rpc::{convert_error, flush_error, MethodId, PartialMethodId, RPCError, RPCErrorKind, ReadFailure};
use essrpc_json::transport::{
    add_param, begin_call, codec_error, read_error, read_failure_error, request_value,
    value_for_state, JRXState, JSONAsyncClientTransport, JSONTransport,
};
use essrpc_json::json::only_whitespace;

fn num(t: &str) -> Json {
    Json::Number(t.to_string())
}

fn text(t: &str) -> Json {
    Json::Str(t.to_string())
}

fn to_serde(v: &Json) -> serde_json::Value {
    match v {
        Json::Null => serde_json::Value::Null,
        Json::Bool(b) => serde_json::Value::Bool(*b),
        Json::Number(t) => serde_json::from_str(t).unwrap(),
        Json::Str(s) => serde_json::Value::String(s.clone()),
        Json::Array(items) => serde_json::Value::Array(items.iter().map(to_serde).collect()),
        Json::Object(ms) => {
            let mut m = serde_json::Map::new();
            for (k, x) in ms {
                m.insert(k.clone(), to_serde(x));
            }
            serde_json::Value::Object(m)
        }
    }
}

fn from_serde(v: &serde_json::Value) -> Json {
    match v {
        serde_json::Value::Null => Json::Null,
        serde_json::Value::Bool(b) => Json::Bool(*b),
        serde_json::Value::Number(n) => Json::Number(n.to_string()),
        serde_json::Value::String(s) => Json::Str(s.clone()),
        serde_json::Value::Array(items) => Json::Array(items.iter().map(from_serde).collect()),
        serde_json::Value::Object(m) => {
            Json::Object(m.iter().map(|(k, x)| (k.clone(), from_serde(x))).collect())
        }
    }
}

fn method(name: &'static str) -> MethodId {
    MethodId { name, num: 0 }
}

fn is_uuid_text(s: &str) -> bool {
    let b = s.as_bytes();
    b.len() == 36
        && b.iter().enumerate().all(|(i, c)| {
            if i == 8 || i == 13 || i == 18 || i == 23 {
                *c == b'-'
            } else {
                c.is_ascii_digit() || (b'a'..=b'f').contains(c)
            }
        })
        && b[14] == b'4'
}

fn wire(v: &Json) -> Vec<u8> {
    serde_json::to_vec(&to_serde(v)).unwrap()
}

fn receive(bytes: &[u8]) -> Json {
    from_serde(&serde_json::from_slice::<serde_json::Value>(bytes).unwrap())
}

fn server() -> JSONTransport<Vec<u8>> {
    JSONTransport::new(Vec::new())
}

fn begin(t: &mut JSONTransport<Vec<u8>>, v: Json) -> (PartialMethodId, JRXState) {
    t.rx_begin_call(v).unwrap()
}

#[test]
fn add_call_round_trip() {
    let mut st = begin_call(method("add"));
    add_param("a", num("1"), &mut st);
    add_param("b", num("2"), &mut st);
    let req = value_for_state(st);
    let sent: serde_json::Value = serde_json::from_slice(&wire(&req)).unwrap();
    assert_eq!(sent["jsonrpc"], serde_json::Value::String("2.0".to_string()));
    assert_eq!(sent["method"], serde_json::Value::String("add".to_string()));
    assert_eq!(sent["params"], serde_json::from_str::<serde_json::Value>("{\"a\":1,\"b\":2}").unwrap());
    assert!(is_uuid_text(sent["id"].as_str().unwrap()));
    assert_eq!(sent.as_object().unwrap().len(), 4);

    let mut t = server();
    let (m, rx) = begin(&mut t, receive(&wire(&req)));
    assert_eq!(m, PartialMethodId::Name("add".to_string()));
    assert_eq!(t.rx_read_param("a", &rx).unwrap(), &num("1"));
    assert_eq!(t.rx_read_param("b", &rx).unwrap(), &num("2"));

}

#[test]
fn non_ascii_string_parameter_is_kept() {
    let mut st = begin_call(method("greet"));
    add_param("name", text("wörld"), &mut st);
    let bytes = wire(&value_for_state(st));
    assert!(String::from_utf8(bytes.clone()).unwrap().contains("wörld"));
    let mut t = server();
    let (m, rx) = begin(&mut t, receive(&bytes));
    assert_eq!(m, PartialMethodId::Name("greet".to_string()));
    assert_eq!(t.rx_read_param("name", &rx).unwrap(), &text("wörld"));
}

#[test]
fn call_without_parameters_sends_empty_object() {
    let st = begin_call(method("noop"));
    let bytes = wire(&value_for_state(st));
    let sent: serde_json::Value = serde_json::from_slice(&bytes).unwrap();
    assert_eq!(sent["params"], serde_json::Value::Object(serde_json::Map::new()));
    let mut t = server();
    let (_, rx) = begin(&mut t, receive(&bytes));
    let e = t.rx_read_param("x", &rx).unwrap_err();
    assert_eq!(e.kind, RPCErrorKind::SerializationError);
    assert_eq!(e.msg, "parameters do not contain x");
    assert_eq!(e.cause, None);
}

#[test]
fn closed_channel_is_end_of_conversation() {
    let consumed: Vec<u8> = Vec::new();
    let e = serde_json::from_slice::<serde_json::Value>(&consumed).unwrap_err();
    let r = read_error(&e, &consumed);
    assert_eq!(r.kind, RPCErrorKind::TransportEOF);
    assert_eq!(r.msg, "EOF during json deserialization");
    assert_eq!(r.cause, None);
}

#[test]
fn whitespace_then_close_is_end_of_conversation() {
    let consumed = b" \n".to_vec();
    let e = serde_json::from_slice::<serde_json::Value>(&consumed).unwrap_err();
    assert_eq!(read_error(&e, &consumed).kind, RPCErrorKind::TransportEOF);
}

#[test]
fn truncated_request_is_serialization_error() {
    let consumed = b"{\"jsonrpc\":\"2.0\",\"method\":".to_vec();
    let e = serde_json::from_slice::<serde_json::Value>(&consumed).unwrap_err();
    let r = read_error(&e, &consumed);
    assert_eq!(r.kind, RPCErrorKind::SerializationError);
    assert_eq!(r.msg, "json serialization or deserialization failed");
    assert!(r.cause.is_some());
}

#[test]
fn syntax_error_is_serialization_error() {
    let consumed = b"}".to_vec();
    let e = serde_json::from_slice::<serde_json::Value>(&consumed).unwrap_err();
    assert_eq!(read_error(&e, &consumed).kind, RPCErrorKind::SerializationError);
}

#[test]
fn read_failure_classification() {
    let cause = "c".to_string();
    assert_eq!(read_failure_error(ReadFailure::Eof, b"", cause.clone()).kind, RPCErrorKind::TransportEOF);
    assert_eq!(read_failure_error(ReadFailure::Eof, b"\t\r", cause.clone()).kind, RPCErrorKind::TransportEOF);
    let e = read_failure_error(ReadFailure::Eof, b" {", cause.clone());
    assert_eq!(e.kind, RPCErrorKind::SerializationError);
    assert_eq!(e.cause, Some(cause.clone()));
    assert_eq!(read_failure_error(ReadFailure::Io, b"", cause.clone()).kind, RPCErrorKind::SerializationError);
    assert_eq!(read_failure_error(ReadFailure::Syntax, b"", cause.clone()).kind, RPCErrorKind::SerializationError);
    assert_eq!(read_failure_error(ReadFailure::Data, b"", cause).kind, RPCErrorKind::SerializationError);
}

#[test]
fn whitespace_detection() {
    assert!(only_whitespace(b""));
    assert!(only_whitespace(b" \t\r\n"));
    assert!(!only_whitespace(b"  x"));
}

#[test]
fn two_calls_in_order_on_one_channel() {
    let mut a = begin_call(method("first"));
    add_param("n", num("1"), &mut a);
    let mut b = begin_call(method("second"));
    add_param("n", num("2"), &mut b);
    let mut channel = wire(&value_for_state(a));
    channel.extend(wire(&value_for_state(b)));
    let received: Vec<Json> = serde_json::Deserializer::from_slice(&channel)
        .into_iter::<serde_json::Value>()
        .map(|v| from_serde(&v.unwrap()))
        .collect();
    assert_eq!(received.len(), 2);
    let mut t = server();
    let mut replies = Vec::new();
    for v in received {
        let (m, rx) = begin(&mut t, v);
        let n = t.rx_read_param("n", &rx).unwrap();
        replies.push((m, n.clone_number()));
    }
    assert_eq!(replies[0], (PartialMethodId::Name("first".to_string()), "1".to_string()));
    assert_eq!(replies[1], (PartialMethodId::Name("second".to_string()), "2".to_string()));
}

trait NumberText {
    fn clone_number(&self) -> String;
}

impl NumberText for Json {
    fn clone_number(&self) -> String {
        match self {
            Json::Number(t) => t.clone(),
            _ => panic!("not a number"),
        }
    }
}

#[test]
fn repeated_read_param_is_equal() {
    let mut st = begin_call(method("m"));
    add_param("p", Json::Array(vec![Json::Null, Json::Bool(true)]), &mut st);
    let mut t = server();
    let (_, rx) = begin(&mut t, value_for_state(st));
    let first = t.rx_read_param("p", &rx).unwrap();
    let second = t.rx_read_param("p", &rx).unwrap();
    assert_eq!(first, second);
    assert_eq!(first, &Json::Array(vec![Json::Null, Json::Bool(true)]));
}

#[test]
fn adding_a_name_twice_keeps_the_last_value() {
    let mut st = begin_call(method("m"));
    add_param("p", num("1"), &mut st);
    add_param("q", num("5"), &mut st);
    add_param("p", num("2"), &mut st);
    let req = request_value(st, "id-1".to_string());
    match &req {
        Json::Object(ms) => {
            assert_eq!(ms[2].0, "params");
            assert_eq!(
                ms[2].1,
                Json::Object(vec![("p".to_string(), num("2")), ("q".to_string(), num("5"))])
            );
            assert_eq!(ms[3], ("id".to_string(), text("id-1")));
        }
        _ => panic!("request is not an object"),
    }
}

#[test]
fn request_members_in_order() {
    let st = begin_call(method("sum"));
    let req = request_value(st, "x".to_string());
    assert_eq!(
        req,
        Json::Object(vec![
            ("jsonrpc".to_string(), text("2.0")),
            ("method".to_string(), text("sum")),
            ("params".to_string(), Json::Object(vec![])),
            ("id".to_string(), text("x")),
        ])
    );
}

#[test]
fn fresh_ids_differ() {
    let a = value_for_state(begin_call(method("m")));
    let b = value_for_state(begin_call(method("m")));
    let ia = a.get("id").and_then(|v| v.as_str()).unwrap().to_string();
    let ib = b.get("id").and_then(|v| v.as_str()).unwrap().to_string();
    assert!(is_uuid_text(&ia));
    assert!(is_uuid_text(&ib));
    assert_ne!(ia, ib);
}

#[test]
fn request_without_method_is_rejected() {
    let mut t = server();
    let e = t.rx_begin_call(Json::Object(vec![("params".to_string(), Json::Object(vec![]))])).unwrap_err();
    assert_eq!(e.kind, RPCErrorKind::SerializationError);
    assert_eq!(e.msg, "json is not expected object");
    let e = t.rx_begin_call(Json::Array(vec![])).unwrap_err();
    assert_eq!(e.msg, "json is not expected object");
}

#[test]
fn request_with_non_string_method_is_rejected() {
    let mut t = server();
    let e = t.rx_begin_call(Json::Object(vec![("method".to_string(), num("7"))])).unwrap_err();
    assert_eq!(e.kind, RPCErrorKind::SerializationError);
    assert_eq!(e.msg, "json method was not string");
    assert_eq!(e.cause, None);
}

#[test]
fn request_without_params_fails_on_read() {
    let mut t = server();
    let (m, rx) = begin(&mut t, Json::Object(vec![("method".to_string(), text("m"))]));
    assert_eq!(m, PartialMethodId::Name("m".to_string()));
    let e = t.rx_read_param("a", &rx).unwrap_err();
    assert_eq!(e.kind, RPCErrorKind::SerializationError);
    assert_eq!(e.msg, "json is not expected object");
}

#[test]
fn params_that_are_not_an_object_hold_no_parameter() {
    let mut t = server();
    let req = Json::Object(vec![
        ("method".to_string(), text("m")),
        ("params".to_string(), Json::Array(vec![num("1")])),
    ]);
    let (_, rx) = begin(&mut t, req);
    assert_eq!(t.rx_read_param("a", &rx).unwrap_err().msg, "parameters do not contain a");
}

#[test]
fn error_values() {
    let e = convert_error("bad".to_string());
    assert_eq!(e.kind, RPCErrorKind::SerializationError);
    assert_eq!(e.msg, "json serialization or deserialization failed");
    assert_eq!(e.describe(), "json serialization or deserialization failed: bad");
    let f = flush_error("broken pipe".to_string());
    assert_eq!(f.msg, "cannot flush underlying channel");
    assert_eq!(f.cause, Some("broken pipe".to_string()));
    let n = RPCError::new(RPCErrorKind::Other, "plain");
    assert_eq!(n.describe(), "plain");
    let err = serde_json::from_str::<u32>("\"x\"").unwrap_err();
    let c = codec_error(&err);
    assert_eq!(c.kind, RPCErrorKind::SerializationError);
    assert_eq!(c.cause, Some(err.to_string()));
}

#[test]
fn transports_hold_their_channel() {
    let mut t = JSONTransport::new(vec![1u8, 2]);
    assert_eq!(t.channel(), &vec![1u8, 2]);
    t.channel_mut().push(3);
    assert_eq!(t.channel(), &vec![1u8, 2, 3]);
    let mut a = JSONAsyncClientTransport::new(5u32);
    *a.channel_mut() += 1;
    assert_eq!(*a.channel_mut(), 6);
}

#[test]
fn json_member_access() {
    let v = Json::Object(vec![("k".to_string(), text("v")), ("k".to_string(), text("w"))]);
    assert_eq!(v.get("k"), Some(&text("v")));
    assert_eq!(v.get("z"), None);
    assert_eq!(text("s").as_str(), Some("s"));
    assert_eq!(num("1").as_str(), None);
    assert_eq!(num("1").get("k"), None);
}

#[test]
fn begin_read_on_closed_channel_is_end_of_conversation() {
    let mut t = server();
    let consumed: Vec<u8> = Vec::new();
    let e = serde_json::from_slice::<serde_json::Value>(&consumed).unwrap_err();
    let r = t.rx_begin_read(Err(e), &consumed).unwrap_err();
    assert_eq!(r.kind, RPCErrorKind::TransportEOF);
}

#[test]
fn begin_read_on_truncated_request_is_serialization_error() {
    let mut t = server();
    let consumed = b"{\"jsonrpc\":\"2.0\",\"method\":".to_vec();
    let e = serde_json::from_slice::<serde_json::Value>(&consumed).unwrap_err();
    let r = t.rx_begin_read(Err(e), &consumed).unwrap_err();
    assert_eq!(r.kind, RPCErrorKind::SerializationError);
}

#[test]
fn begin_read_accepts_a_request() {
    let mut t = server();
    let req = Json::Object(vec![("method".to_string(), text("ping"))]);
    let (m, _) = t.rx_begin_read(Ok(req), b"{}").unwrap();
    assert_eq!(m, PartialMethodId::Name("ping".to_string()));
    let e = t.rx_begin_read(Ok(Json::Null), b"null").unwrap_err();
    assert_eq!(e.msg, "json is not expected object");
}

#[test]
fn async_transport_keeps_pending_bytes() {
    let mut a = JSONAsyncClientTransport::new(0u8);
    assert!(a.take_pending().is_empty());
    a.set_pending(b"12".to_vec());
    assert_eq!(a.take_pending(), b"12".to_vec());
    assert!(a.take_pending().is_empty());
}
