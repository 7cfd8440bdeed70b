use lumina_rcs::pending::PendingCalls;
use lumina_rcs::protocol::{
    begin_call, decode_line, encode_request, route_line, route_message, BridgeLine, Routed,
};
use serde_json::Value;

fn text(b: &[u8]) -> String {
    String::from_utf8(b.to_vec()).unwrap()
}

#[test]
fn pending_register_take() {
    let mut p: PendingCalls<u32> = PendingCalls::new();
    assert_eq!(p.len(), 0);
    p.register("a".to_string(), 1);
    p.register("b".to_string(), 2);
    assert!(p.contains("a"));
    assert_eq!(p.len(), 2);
    p.register("a".to_string(), 3);
    assert_eq!(p.len(), 2);
    assert_eq!(p.take("a"), Some(3));
    assert_eq!(p.take("a"), None);
    assert!(!p.contains("a"));
    assert_eq!(p.take("b"), Some(2));
    assert_eq!(p.len(), 0);
}

#[test]
fn encode_without_params() {
    let line = encode_request("abc", "status", None).unwrap();
    assert_eq!(text(&line), "{\"id\":\"abc\",\"method\":\"status\"}\n");
}

#[test]
fn encode_with_params() {
    let params: Value = serde_json::from_str("{\"count\":5}").unwrap();
    let line = encode_request("id-1", "list_conversations", Some(&params)).unwrap();
    assert_eq!(text(&line), "{\"id\":\"id-1\",\"method\":\"list_conversations\",\"params\":{\"count\":5}}\n");
}

#[test]
fn encode_is_one_line() {
    let params = Value::String("two\nlines".to_string());
    let line = encode_request("x\ny", "a\"b", Some(&params)).unwrap();
    assert_eq!(line.iter().filter(|&&b| b == b'\n').count(), 1);
    assert_eq!(*line.last().unwrap(), b'\n');
    let back: Value = serde_json::from_slice(&line).unwrap();
    assert_eq!(back["id"], Value::String("x\ny".to_string()));
    assert_eq!(back["method"], Value::String("a\"b".to_string()));
    assert_eq!(back["params"], params);
}

#[test]
fn decode_reads_members() {
    let m = decode_line("{\"id\":\"q\",\"result\":{\"paired\":false},\"error\":7}").unwrap();
    assert_eq!(m.id.as_deref(), Some("q"));
    assert_eq!(m.error, None);
    assert_eq!(m.result, Some(serde_json::from_str::<Value>("{\"paired\":false}").unwrap()));
    assert_eq!(m.event, None);
    assert_eq!(m.data, None);
    let e = decode_line("{\"event\":\"ready\"}").unwrap();
    assert_eq!(e.event.as_deref(), Some("ready"));
    let n = decode_line("[1,2]").unwrap();
    assert!(n.id.is_none() && n.event.is_none());
}

#[test]
fn decode_refuses_non_json() {
    let e = decode_line("not json").err().unwrap();
    assert!(e.starts_with("parse bridge line: "));
}

fn line(id: Option<&str>, error: Option<&str>, result: Option<Value>, event: Option<&str>, data: Option<Value>) -> BridgeLine {
    BridgeLine {
        id: id.map(|s| s.to_string()),
        error: error.map(|s| s.to_string()),
        result,
        event: event.map(|s| s.to_string()),
        data,
    }
}

#[test]
fn route_reply_with_result() {
    let mut p: PendingCalls<&str> = PendingCalls::new();
    p.register("r1".to_string(), "waiter-1");
    p.register("r2".to_string(), "waiter-2");
    match route_message(&mut p, line(Some("r1"), None, Some(Value::Bool(true)), None, None)) {
        Routed::Reply { waiter, outcome } => {
            assert_eq!(waiter, "waiter-1");
            assert_eq!(outcome, Ok(Value::Bool(true)));
        }
        _ => panic!("expected a reply"),
    }
    assert!(!p.contains("r1"));
    assert!(p.contains("r2"));
}

#[test]
fn route_reply_with_error_and_missing_result() {
    let mut p: PendingCalls<u8> = PendingCalls::new();
    p.register("a".to_string(), 1);
    p.register("b".to_string(), 2);
    match route_message(&mut p, line(Some("a"), Some("boom"), Some(Value::Bool(true)), None, None)) {
        Routed::Reply { waiter, outcome } => {
            assert_eq!(waiter, 1);
            assert_eq!(outcome, Err("boom".to_string()));
        }
        _ => panic!("expected a reply"),
    }
    match route_message(&mut p, line(Some("b"), None, None, None, None)) {
        Routed::Reply { waiter, outcome } => {
            assert_eq!(waiter, 2);
            assert_eq!(outcome, Ok(Value::Null));
        }
        _ => panic!("expected a reply"),
    }
}

#[test]
fn route_unknown_reply_and_second_reply() {
    let mut p: PendingCalls<u8> = PendingCalls::new();
    p.register("a".to_string(), 1);
    assert!(matches!(route_message(&mut p, line(Some("a"), None, None, None, None)), Routed::Reply { .. }));
    match route_message(&mut p, line(Some("a"), None, None, None, None)) {
        Routed::UnknownReply { id } => assert_eq!(id, "a"),
        _ => panic!("expected an unknown reply"),
    }
}

#[test]
fn route_event() {
    let mut p: PendingCalls<u8> = PendingCalls::new();
    p.register("a".to_string(), 1);
    match route_message(&mut p, line(None, None, None, Some("qr"), Some(Value::String("u".to_string())))) {
        Routed::Event { name, payload } => {
            assert_eq!(name, "lumina://qr");
            assert_eq!(payload, Value::String("u".to_string()));
        }
        _ => panic!("expected an event"),
    }
    match route_message(&mut p, line(None, None, None, Some("ready"), None)) {
        Routed::Event { name, payload } => {
            assert_eq!(name, "lumina://ready");
            assert_eq!(payload, Value::Null);
        }
        _ => panic!("expected an event"),
    }
    assert!(p.contains("a"));
}

#[test]
fn route_unroutable() {
    let mut p: PendingCalls<u8> = PendingCalls::new();
    assert!(matches!(route_message(&mut p, line(None, None, None, None, None)), Routed::Unroutable));
}

#[test]
fn route_line_end_to_end() {
    let mut p: PendingCalls<u8> = PendingCalls::new();
    p.register("k".to_string(), 9);
    match route_line(&mut p, "{\"id\":\"k\",\"result\":[1]}") {
        Ok(Routed::Reply { waiter, outcome }) => {
            assert_eq!(waiter, 9);
            assert_eq!(outcome.unwrap(), serde_json::from_str::<Value>("[1]").unwrap());
        }
        _ => panic!("expected a reply"),
    }
    assert!(route_line(&mut p, "{").is_err());
    match route_line(&mut p, "{\"event\":\"paired\",\"data\":{\"phone_id\":\"p\"}}") {
        Ok(Routed::Event { name, .. }) => assert_eq!(name, "lumina://paired"),
        _ => panic!("expected an event"),
    }
}

#[test]
fn begin_call_files_waiter_and_frames_line() {
    let mut p: PendingCalls<u8> = PendingCalls::new();
    let (id, bytes) = begin_call(&mut p, "connect", None, 4).unwrap();
    assert_eq!(id.len(), 36);
    assert!(p.contains(&id));
    assert_eq!(text(&bytes), format!("{{\"id\":\"{}\",\"method\":\"connect\"}}\n", id));
    let (id2, _) = begin_call(&mut p, "status", None, 5).unwrap();
    assert_ne!(id, id2);
    assert_eq!(p.len(), 2);
}

fn is_uuid_v4_text(s: &str) -> bool {
    let b: Vec<char> = s.chars().collect();
    b.len() == 36
        && b.iter().enumerate().all(|(i, c)| {
            if i == 8 || i == 13 || i == 18 || i == 23 {
                *c == '-'
            } else {
                c.is_ascii_digit() || ('a'..='f').contains(c)
            }
        })
        && b[14] == '4'
        && "89ab".contains(b[19])
}

#[test]
fn begin_call_id_is_uuid_v4_and_params_are_json() {
    let mut p: PendingCalls<u8> = PendingCalls::new();
    let params: Value = serde_json::from_str("{\"conversation_id\":\"c\",\"count\":3}").unwrap();
    let (id, bytes) = begin_call(&mut p, "fetch_messages", Some(&params), 1).unwrap();
    assert!(is_uuid_v4_text(&id));
    assert_eq!(
        text(&bytes),
        format!(
            "{{\"id\":\"{}\",\"method\":\"fetch_messages\",\"params\":{}}}\n",
            id,
            serde_json::to_string(&params).unwrap()
        )
    );
}

#[test]
fn decode_error_quotes_serde_json() {
    let e = decode_line("{").err().unwrap();
    let se = serde_json::from_str::<Value>("{").err().unwrap();
    assert_eq!(e, format!("parse bridge line: {}", se));
}
