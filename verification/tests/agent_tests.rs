use aria_gui::agent::{
    finish_daemon_task, forward_daemon_event, plan_delegation, plan_turn, validate_direct_task, DirectDaemonEvent, FrontendEvent,
    TurnStep,
};
use aria_gui::daemon::{decode_daemon_event, interpret_query_reply, DaemonEvent};
use aria_gui::json::JsonValue;
use aria_gui::llm::LlmStreamResult;

fn event(line: &str) -> DaemonEvent {
    decode_daemon_event(interpret_query_reply(line).unwrap()).unwrap()
}

fn members(v: &JsonValue) -> Vec<(String, String)> {
    match v {
        JsonValue::Object(es) => es
            .iter()
            .map(|(k, v)| (k.clone(), v.as_str().map(|s| s.to_string()).unwrap_or_else(|| "<json>".to_string())))
            .collect(),
        _ => panic!("not an object"),
    }
}

fn pairs(xs: &[(&str, &str)]) -> Vec<(String, String)> {
    xs.iter().map(|(a, b)| (a.to_string(), b.to_string())).collect()
}

#[test]
fn frontend_events_on_the_wire() {
    let w = FrontendEvent::Token { content: "t".to_string() }.to_wire();
    assert_eq!(members(&w), pairs(&[("kind", "token"), ("content", "t")]));
    let w = FrontendEvent::Done { full_text: "all".to_string() }.to_wire();
    assert_eq!(members(&w), pairs(&[("kind", "done"), ("full_text", "all")]));
    let w = FrontendEvent::DaemonStarted { task: "t".to_string(), skill_type: "fs".to_string() }.to_wire();
    assert_eq!(members(&w), pairs(&[("kind", "daemon_started"), ("task", "t"), ("skill_type", "fs")]));
    let w = FrontendEvent::DaemonDone { result: "r".to_string() }.to_wire();
    assert_eq!(members(&w), pairs(&[("kind", "daemon_done"), ("result", "r")]));
    let w = FrontendEvent::Error { message: "m".to_string() }.to_wire();
    assert_eq!(members(&w), pairs(&[("kind", "error"), ("message", "m")]));
}

#[test]
fn confirmations_carry_their_kind_in_a_payload() {
    let w = FrontendEvent::AwaitingConfirmation { task_id: "7".to_string(), content: "pay?".to_string(), kind: None }
        .to_wire();
    assert_eq!(members(&w), pairs(&[("kind", "awaiting_confirmation"), ("task_id", "7"), ("content", "pay?")]));
    let w = FrontendEvent::AwaitingConfirmation {
        task_id: "7".to_string(),
        content: "pay?".to_string(),
        kind: Some("payment".to_string()),
    }
    .to_wire();
    assert_eq!(members(&w).len(), 4);
    assert_eq!(w.get("payload").unwrap().str_at("kind"), Some("payment"));
}

#[test]
fn daemon_events_are_forwarded_with_their_payload() {
    let ev = event(r#"{"type":"observation","content":"42"}"#);
    let w = FrontendEvent::DaemonEvent { event_type: ev.event_type, payload: ev.payload }.to_wire();
    assert_eq!(w.str_at("kind"), Some("daemon_event"));
    assert_eq!(w.str_at("event_type"), Some("observation"));
    assert_eq!(w.get("payload").unwrap().str_at("content"), Some("42"));
}

#[test]
fn asks_become_confirmation_requests() {
    let mut fin = "before".to_string();
    let r = forward_daemon_event(event(r#"{"type":"ask","task_id":"t1","content":"ok?","kind":"payment"}"#), &mut fin);
    assert_eq!(
        r,
        Some(FrontendEvent::AwaitingConfirmation {
            task_id: "t1".to_string(),
            content: "ok?".to_string(),
            kind: Some("payment".to_string())
        })
    );
    assert_eq!(fin, "before");
    let r = forward_daemon_event(event(r#"{"type":"ask","content":"ok?"}"#), &mut fin);
    assert_eq!(r, None);
    assert_eq!(fin, "before");
}

#[test]
fn final_and_chat_content_becomes_the_result() {
    let mut fin = String::new();
    let r = forward_daemon_event(event(r#"{"type":"final","content":"answer"}"#), &mut fin);
    assert_eq!(fin, "answer");
    match r {
        Some(FrontendEvent::DaemonEvent { event_type, .. }) => assert_eq!(event_type, "final"),
        other => panic!("unexpected {:?}", other),
    }
    forward_daemon_event(event(r#"{"type":"chat","content":"again"}"#), &mut fin);
    assert_eq!(fin, "again");
    forward_daemon_event(event(r#"{"type":"chat"}"#), &mut fin);
    assert_eq!(fin, "again");
    forward_daemon_event(event(r#"{"type":"thought","content":"not this"}"#), &mut fin);
    assert_eq!(fin, "again");
}

#[test]
fn planning_a_turn() {
    match plan_turn(Ok(LlmStreamResult::TextDone { full_text: "hi".to_string() })) {
        TurnStep::Emit(FrontendEvent::Done { full_text }) => assert_eq!(full_text, "hi"),
        other => panic!("unexpected {:?}", other),
    }
    match plan_turn(Ok(LlmStreamResult::ToolCall {
        id: "c".to_string(),
        name: "rm_rf".to_string(),
        arguments: "{}".to_string(),
    })) {
        TurnStep::Emit(FrontendEvent::Error { message }) => assert_eq!(message, "Unsupported tool: rm_rf"),
        other => panic!("unexpected {:?}", other),
    }
    match plan_turn(Ok(LlmStreamResult::ToolCall {
        id: "c".to_string(),
        name: "delegate_to_daemon".to_string(),
        arguments: "{bad".to_string(),
    })) {
        TurnStep::Fail(m) => assert!(m.starts_with("Bad tool args JSON: "), "{}", m),
        other => panic!("unexpected {:?}", other),
    }
    match plan_turn(Ok(LlmStreamResult::ToolCall {
        id: "c".to_string(),
        name: "delegate_to_daemon".to_string(),
        arguments: r#"{"task":"search cats","type":"web"}"#.to_string(),
    })) {
        TurnStep::Delegate { task, skill_type } => {
            assert_eq!(task, "search cats");
            assert_eq!(skill_type, "web");
        }
        other => panic!("unexpected {:?}", other),
    }
    match plan_turn(Ok(LlmStreamResult::ToolCall {
        id: "c".to_string(),
        name: "delegate_to_daemon".to_string(),
        arguments: "{}".to_string(),
    })) {
        TurnStep::Delegate { task, skill_type } => {
            assert_eq!(task, "unknown task");
            assert_eq!(skill_type, "fs");
        }
        other => panic!("unexpected {:?}", other),
    }
    match plan_turn(Err("LLM request failed: boom".to_string())) {
        TurnStep::Emit(FrontendEvent::Error { message }) => assert_eq!(message, "LLM request failed: boom"),
        other => panic!("unexpected {:?}", other),
    }
}

#[test]
fn finishing_a_daemon_task() {
    assert_eq!(
        finish_daemon_task(Ok(()), "res".to_string()),
        FrontendEvent::DaemonDone { result: "res".to_string() }
    );
    assert_eq!(
        finish_daemon_task(Err("Read error: x".to_string()), "res".to_string()),
        FrontendEvent::Error { message: "Read error: x".to_string() }
    );
}

#[test]
fn direct_tasks_are_trimmed_and_must_not_be_blank() {
    assert_eq!(validate_direct_task("  list  ", " fs\n"), Ok(("list".to_string(), "fs".to_string())));
    assert_eq!(validate_direct_task("   ", "fs"), Err("Task cannot be empty".to_string()));
    assert_eq!(validate_direct_task("   ", "  "), Err("Task cannot be empty".to_string()));
    assert_eq!(validate_direct_task("x", " "), Err("Type cannot be empty".to_string()));
}

#[test]
fn direct_events_on_the_wire() {
    let w = DirectDaemonEvent::Started { task: "t".to_string(), skill_type: "os".to_string() }.to_wire();
    assert_eq!(members(&w), pairs(&[("kind", "started"), ("task", "t"), ("skill_type", "os")]));
    let w = DirectDaemonEvent::Done.to_wire();
    assert_eq!(members(&w), pairs(&[("kind", "done")]));
    let w = DirectDaemonEvent::Error { message: "m".to_string() }.to_wire();
    assert_eq!(members(&w), pairs(&[("kind", "error"), ("message", "m")]));
    let w = DirectDaemonEvent::Event { event_type: "thought".to_string(), payload: JsonValue::Null }.to_wire();
    assert_eq!(w.str_at("kind"), Some("event"));
    assert_eq!(w.get("payload"), Some(&JsonValue::Null));
}

#[test]
fn planning_a_delegation_from_its_arguments() {
    match plan_delegation(Err("expected value at line 1 column 1".to_string())) {
        TurnStep::Fail(m) => assert_eq!(m, "Bad tool args JSON: expected value at line 1 column 1"),
        other => panic!("unexpected {:?}", other),
    }
    let args = JsonValue::Object(vec![
        ("task".to_string(), JsonValue::Str("read notes".to_string())),
        ("type".to_string(), JsonValue::Str("os".to_string())),
    ]);
    assert_eq!(
        plan_delegation(Ok(args)),
        TurnStep::Delegate { task: "read notes".to_string(), skill_type: "os".to_string() }
    );
    let args = JsonValue::Object(vec![("task".to_string(), JsonValue::Number("3".to_string()))]);
    assert_eq!(
        plan_delegation(Ok(args)),
        TurnStep::Delegate { task: "unknown task".to_string(), skill_type: "fs".to_string() }
    );
    assert_eq!(
        plan_delegation(Ok(JsonValue::Array(vec![]))),
        TurnStep::Delegate { task: "unknown task".to_string(), skill_type: "fs".to_string() }
    );
}
