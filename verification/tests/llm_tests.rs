use aria_gui::json::JsonValue;
use aria_gui::llm::{
    chat_request_body, delegate_tool_definition, ChatMessage, LlmStreamResult, StreamAccumulator, ToolCall,
    ToolCallFunction,
};

#[test]
fn message_constructors() {
    let m = ChatMessage::user("hi");
    assert_eq!(m.role, "user");
    assert_eq!(m.content.as_deref(), Some("hi"));
    assert!(m.tool_calls.is_none() && m.tool_call_id.is_none());
    let m = ChatMessage::assistant_text("hello");
    assert_eq!(m.role, "assistant");
    assert_eq!(m.content.as_deref(), Some("hello"));
    let m = ChatMessage::tool_result("call_1", "done");
    assert_eq!(m.role, "tool");
    assert_eq!(m.content.as_deref(), Some("done"));
    assert_eq!(m.tool_call_id.as_deref(), Some("call_1"));
}

#[test]
fn text_answers_are_streamed_as_tokens() {
    let mut acc = StreamAccumulator::new();
    let chunk = "data: {\"choices\":[{\"delta\":{\"content\":\"Hel\"}}]}\n\ndata: {\"choices\":[{\"delta\":{\"content\":\"lo\"}}]}\n";
    let toks = acc.feed_chunk(chunk.as_bytes());
    assert_eq!(toks, vec!["Hel".to_string(), "lo".to_string()]);
    let toks = acc.feed_chunk(b"data: {\"choices\":[{\"delta\":{\"content\":\"\"}}]}\ndata: [DONE]\n");
    assert!(toks.is_empty());
    assert_eq!(acc.full_text, "Hello");
    match acc.finish() {
        LlmStreamResult::TextDone { full_text } => assert_eq!(full_text, "Hello"),
        other => panic!("unexpected {:?}", other),
    }
}

#[test]
fn lines_without_the_data_prefix_and_junk_lines() {
    let mut acc = StreamAccumulator::new();
    assert_eq!(acc.feed_line("{\"choices\":[{\"delta\":{\"content\":\"x\"}}]}"), Some("x".to_string()));
    assert_eq!(acc.feed_line("data: not json"), None);
    assert_eq!(acc.feed_line(": keep-alive"), None);
    assert_eq!(acc.feed_line("data: {\"choices\":[]}"), None);
    assert_eq!(acc.feed_line("   "), None);
    assert_eq!(acc.full_text, "x");
}

#[test]
fn tool_calls_are_gathered_across_deltas() {
    let mut acc = StreamAccumulator::new();
    let lines = [
        r#"data: {"choices":[{"delta":{"tool_calls":[{"id":"call_1","function":{"name":"delegate_to_daemon","arguments":""}}]}}]}"#,
        r#"data: {"choices":[{"delta":{"tool_calls":[{"id":"","function":{"arguments":"{\"task\":"}}]}}]}"#,
        r#"data: {"choices":[{"delta":{"tool_calls":[{"function":{"name":"","arguments":"\"ls\"}"}}]}}]}"#,
    ];
    for l in lines {
        assert_eq!(acc.feed_line(l), None);
    }
    assert!(acc.is_tool_call);
    match acc.finish() {
        LlmStreamResult::ToolCall { id, name, arguments } => {
            assert_eq!(id, "call_1");
            assert_eq!(name, "delegate_to_daemon");
            assert_eq!(arguments, "{\"task\":\"ls\"}");
        }
        other => panic!("unexpected {:?}", other),
    }
}

#[test]
fn a_tool_call_without_a_name_ends_as_text() {
    let mut acc = StreamAccumulator::new();
    acc.feed_line(r#"data: {"choices":[{"delta":{"content":"so"}}]}"#);
    acc.feed_line(r#"data: {"choices":[{"delta":{"tool_calls":[]}}]}"#);
    assert!(acc.is_tool_call);
    match acc.finish() {
        LlmStreamResult::TextDone { full_text } => assert_eq!(full_text, "so"),
        other => panic!("unexpected {:?}", other),
    }
}

#[test]
fn invalid_utf8_is_replaced() {
    let mut acc = StreamAccumulator::new();
    let mut bytes = b"data: {\"choices\":[{\"delta\":{\"content\":\"a".to_vec();
    bytes.push(0xff);
    bytes.extend_from_slice(b"\"}}]}\n");
    let toks = acc.feed_chunk(&bytes);
    assert_eq!(toks, vec!["a\u{fffd}".to_string()]);
}

#[test]
fn the_delegate_tool() {
    let t = delegate_tool_definition();
    assert_eq!(t.str_at("type"), Some("function"));
    let f = t.get("function").unwrap();
    assert_eq!(f.str_at("name"), Some("delegate_to_daemon"));
    let p = f.get("parameters").unwrap();
    assert_eq!(p.str_at("type"), Some("object"));
    let ty = p.get("properties").unwrap().get("type").unwrap();
    let e = ty.get("enum").unwrap();
    assert_eq!(e.nth(1).and_then(|x| x.as_str()), Some("web"));
    let req = p.get("required").unwrap();
    assert_eq!(req.nth(0).and_then(|x| x.as_str()), Some("task"));
}

#[test]
fn request_bodies() {
    let msgs = vec![
        ChatMessage::user("hi"),
        ChatMessage {
            role: "assistant".to_string(),
            content: None,
            tool_calls: Some(vec![ToolCall {
                id: "c1".to_string(),
                call_type: "function".to_string(),
                function: ToolCallFunction { name: "delegate_to_daemon".to_string(), arguments: "{}".to_string() },
            }]),
            tool_call_id: None,
        },
        ChatMessage::tool_result("c1", "ok"),
    ];
    let body = chat_request_body(msgs, "gemma-4-31b-it");
    assert_eq!(body.str_at("model"), Some("gemma-4-31b-it"));
    assert_eq!(body.get("stream"), Some(&JsonValue::Bool(true)));
    let ms = body.get("messages").unwrap();
    let m0 = ms.nth(0).unwrap();
    assert_eq!(m0.str_at("role"), Some("user"));
    assert!(m0.get("tool_calls").is_none() && m0.get("tool_call_id").is_none());
    let m1 = ms.nth(1).unwrap();
    assert_eq!(m1.get("content"), Some(&JsonValue::Null));
    let tc = m1.get("tool_calls").unwrap().nth(0).unwrap();
    assert_eq!(tc.str_at("type"), Some("function"));
    assert_eq!(tc.get("function").unwrap().str_at("arguments"), Some("{}"));
    assert_eq!(ms.nth(2).unwrap().str_at("tool_call_id"), Some("c1"));
    let tools = body.get("tools").unwrap();
    assert_eq!(tools.nth(0), Some(&delegate_tool_definition()));
}

#[test]
fn reading_in_two_chunks_is_reading_at_once() {
    let a = "data: {\"choices\":[{\"delta\":{\"content\":\"one \"}}]}\n";
    let b = "data: {\"choices\":[{\"delta\":{\"content\":\"two\"}}]}\n";
    let mut split = StreamAccumulator::new();
    let mut toks = split.feed_chunk(a.as_bytes());
    toks.extend(split.feed_chunk(b.as_bytes()));
    let mut whole = StreamAccumulator::new();
    let all = whole.feed_chunk(format!("{a}{b}").as_bytes());
    assert_eq!(toks, all);
    assert_eq!(split.full_text, whole.full_text);
    assert_eq!(toks.concat(), whole.full_text);
}

#[test]
fn tool_calls_on_the_wire() {
    let w = ToolCall {
        id: "c9".to_string(),
        call_type: "function".to_string(),
        function: ToolCallFunction { name: "f".to_string(), arguments: "{\"a\":1}".to_string() },
    }
    .to_wire();
    assert_eq!(w.str_at("id"), Some("c9"));
    assert_eq!(w.str_at("type"), Some("function"));
    assert_eq!(w.get("function").unwrap().str_at("name"), Some("f"));
}

#[test]
fn the_delegate_tool_members_come_in_key_order() {
    fn keys(v: &JsonValue) -> Vec<String> {
        match v {
            JsonValue::Object(es) => es.iter().map(|(k, _)| k.clone()).collect(),
            _ => panic!("not an object"),
        }
    }
    let t = delegate_tool_definition();
    assert_eq!(keys(&t), vec!["function", "type"]);
    let f = t.get("function").unwrap();
    assert_eq!(keys(f), vec!["description", "name", "parameters"]);
    let p = f.get("parameters").unwrap();
    assert_eq!(keys(p), vec!["properties", "required", "type"]);
    let props = p.get("properties").unwrap();
    assert_eq!(keys(props), vec!["task", "type"]);
    assert_eq!(keys(props.get("task").unwrap()), vec!["description", "type"]);
    assert_eq!(keys(props.get("type").unwrap()), vec!["description", "enum", "type"]);
}

fn obj(entries: Vec<(&str, JsonValue)>) -> JsonValue {
    JsonValue::Object(entries.into_iter().map(|(k, v)| (k.to_string(), v)).collect())
}

fn chunk_with(delta: JsonValue) -> JsonValue {
    obj(vec![("choices", JsonValue::Array(vec![obj(vec![("delta", delta)])]))])
}

#[test]
fn chunks_read_as_values() {
    let mut acc = StreamAccumulator::new();
    let t = acc.feed_chunk_value(&chunk_with(obj(vec![("content", JsonValue::Str("Hi".to_string()))])));
    assert_eq!(t, Some("Hi".to_string()));
    assert_eq!(acc.feed_chunk_value(&chunk_with(obj(vec![("content", JsonValue::Str(String::new()))]))), None);
    assert_eq!(acc.feed_chunk_value(&chunk_with(obj(vec![("content", JsonValue::Null)]))), None);
    assert_eq!(acc.feed_chunk_value(&obj(vec![("choices", JsonValue::Array(vec![]))])), None);
    assert_eq!(acc.feed_chunk_value(&JsonValue::Null), None);
    assert_eq!(acc.full_text, "Hi");
    assert!(!acc.is_tool_call);
    let call = obj(vec![
        ("id", JsonValue::Str("c7".to_string())),
        (
            "function",
            obj(vec![("name", JsonValue::Str("delegate_to_daemon".to_string())), ("arguments", JsonValue::Str("{}".to_string()))]),
        ),
    ]);
    let t = acc.feed_chunk_value(&chunk_with(obj(vec![
        ("tool_calls", JsonValue::Array(vec![call])),
        ("content", JsonValue::Str("ignored".to_string())),
    ])));
    assert_eq!(t, None);
    assert!(acc.is_tool_call);
    assert_eq!(acc.tool_call_id, "c7");
    assert_eq!(acc.tool_call_name, "delegate_to_daemon");
    assert_eq!(acc.tool_call_args, "{}");
    assert_eq!(acc.full_text, "Hi");
}

fn member_names(v: &JsonValue) -> Vec<String> {
    match v {
        JsonValue::Object(es) => es.iter().map(|(k, _)| k.clone()).collect(),
        _ => panic!("not an object"),
    }
}

#[test]
fn messages_on_the_wire_keep_serde_json_key_order() {
    let call = ToolCall {
        id: "c1".to_string(),
        call_type: "function".to_string(),
        function: ToolCallFunction { name: "f".to_string(), arguments: "{}".to_string() },
    };
    let w = call.clone().to_wire();
    assert_eq!(member_names(&w), vec!["function", "id", "type"]);
    assert_eq!(member_names(w.get("function").unwrap()), vec!["arguments", "name"]);
    let m = ChatMessage {
        role: "assistant".to_string(),
        content: None,
        tool_calls: Some(vec![call]),
        tool_call_id: Some("x".to_string()),
    };
    assert_eq!(member_names(&m.to_wire()), vec!["content", "role", "tool_call_id", "tool_calls"]);
    assert_eq!(member_names(&ChatMessage::user("hi").to_wire()), vec!["content", "role"]);
    assert_eq!(member_names(&ChatMessage::tool_result("c1", "ok").to_wire()), vec!["content", "role", "tool_call_id"]);
    let body = chat_request_body(vec![ChatMessage::user("hi")], "m");
    assert_eq!(member_names(&body), vec!["messages", "model", "stream", "tools"]);
}
