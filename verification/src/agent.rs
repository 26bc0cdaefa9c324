//! One turn of the assistant: what the frontend is told while the model
//! answers and while the daemon carries out a delegated task.
use vstd::prelude::*;
use vstd::string::StringExecFns;
use crate::daemon::DaemonEvent;
use crate::json::{JsonValue, json_at, json_get, json_parse_result, json_str_at, parse_json, str_member};
use crate::llm::LlmStreamResult;
use crate::text::{opt_chars, same_text, trim, trim_str};

verus! {

/// Events for the Svelte frontend, sent on the `aria-event` channel.
#[derive(Debug, PartialEq)]
pub enum FrontendEvent {
    /// A streamed text token from the chat model.
    Token { content: String },
    /// The model finished a text answer.
    Done { full_text: String },
    /// A task is about to be delegated to the daemon.
    DaemonStarted { task: String, skill_type: String },
    /// The daemon asks the user to confirm before it goes on.
    AwaitingConfirmation { task_id: String, content: String, kind: Option<String> },
    /// An event forwarded from the daemon (thought, action, observation, final, …).
    DaemonEvent { event_type: String, payload: JsonValue },
    /// The daemon finished the task, with its final content if any.
    DaemonDone { result: String },
    /// Something failed.
    Error { message: String },
}

/// A string member built from a name and its text.
fn str_entry(k: &str, v: String) -> (e: (String, JsonValue))
    ensures
        str_member(e, k@, v@),
{
    (k.to_string(), JsonValue::Str(v))
}

/// The members of the object the frontend receives for `ev`, in the order
/// they are written: `kind` first, then the variant's fields.
pub open spec fn wire_members_are(ev: FrontendEvent, es: Seq<(String, JsonValue)>) -> bool {
    match ev {
        FrontendEvent::Token { content } => es.len() == 2 && str_member(es[0], "kind"@, "token"@)
            && str_member(es[1], "content"@, content@),
        FrontendEvent::Done { full_text } => es.len() == 2 && str_member(es[0], "kind"@, "done"@)
            && str_member(es[1], "full_text"@, full_text@),
        FrontendEvent::DaemonStarted { task, skill_type } => es.len() == 3 && str_member(
            es[0],
            "kind"@,
            "daemon_started"@,
        ) && str_member(es[1], "task"@, task@) && str_member(es[2], "skill_type"@, skill_type@),
        FrontendEvent::AwaitingConfirmation { task_id, content, kind } => {
            &&& str_member(es[0], "kind"@, "awaiting_confirmation"@)
            &&& str_member(es[1], "task_id"@, task_id@)
            &&& str_member(es[2], "content"@, content@)
            &&& match kind {
                Some(k) => es.len() == 4 && es[3].0@ == "payload"@ && (es[3].1 matches JsonValue::Object(ps)
                    && ps@.len() == 1 && str_member(ps@[0], "kind"@, k@)),
                None => es.len() == 3,
            }
        },
        FrontendEvent::DaemonEvent { event_type, payload } => es.len() == 3 && str_member(
            es[0],
            "kind"@,
            "daemon_event"@,
        ) && str_member(es[1], "event_type"@, event_type@) && es[2].0@ == "payload"@ && es[2].1 == payload,
        FrontendEvent::DaemonDone { result } => es.len() == 2 && str_member(es[0], "kind"@, "daemon_done"@)
            && str_member(es[1], "result"@, result@),
        FrontendEvent::Error { message } => es.len() == 2 && str_member(es[0], "kind"@, "error"@)
            && str_member(es[1], "message"@, message@),
    }
}

impl FrontendEvent {
    /// The JSON object the frontend receives for this event.
    pub fn to_wire(self) -> (r: JsonValue)
        ensures
            r matches JsonValue::Object(es) && wire_members_are(self, es@),
    {
        let es = match self {
            FrontendEvent::Token { content } => vec![
                str_entry("kind", "token".to_string()),
                str_entry("content", content),
            ],
            FrontendEvent::Done { full_text } => vec![
                str_entry("kind", "done".to_string()),
                str_entry("full_text", full_text),
            ],
            FrontendEvent::DaemonStarted { task, skill_type } => vec![
                str_entry("kind", "daemon_started".to_string()),
                str_entry("task", task),
                str_entry("skill_type", skill_type),
            ],
            FrontendEvent::AwaitingConfirmation { task_id, content, kind } => {
                let mut es = vec![
                    str_entry("kind", "awaiting_confirmation".to_string()),
                    str_entry("task_id", task_id),
                    str_entry("content", content),
                ];
                match kind {
                    Some(k) => {
                        let payload = JsonValue::Object(vec![str_entry("kind", k)]);
                        es.push(("payload".to_string(), payload));
                    },
                    None => {},
                }
                es
            },
            FrontendEvent::DaemonEvent { event_type, payload } => vec![
                str_entry("kind", "daemon_event".to_string()),
                str_entry("event_type", event_type),
                ("payload".to_string(), payload),
            ],
            FrontendEvent::DaemonDone { result } => vec![
                str_entry("kind", "daemon_done".to_string()),
                str_entry("result", result),
            ],
            FrontendEvent::Error { message } => vec![
                str_entry("kind", "error".to_string()),
                str_entry("message", message),
            ],
        };
        JsonValue::Object(es)
    }
}


// ── Forwarding the daemon's events ───────────────────────────────────────────

/// What forwarding the daemon event `ev` does: `r` is the event the frontend
/// is told of (if any) and `after` the final result gathered afterwards,
/// `before` the one gathered before. An `ask` event becomes a confirmation
/// request (when it names a task and a content) and nothing else; a `final`
/// or `chat` event with a `content` makes that content the final result;
/// every event but `ask` is passed on as it came.
pub open spec fn forward_effect(ev: DaemonEvent, before: Seq<char>, after: Seq<char>, r: Option<FrontendEvent>) -> bool {
    let t = ev.event_type@;
    let p = ev.payload;
    if t == "ask"@ {
        &&& after == before
        &&& match (json_str_at(p, "task_id"@), json_str_at(p, "content"@)) {
            (Some(id), Some(c)) => r matches Some(FrontendEvent::AwaitingConfirmation { task_id, content, kind })
                && task_id@ == id && content@ == c && opt_chars(kind) == json_str_at(p, "kind"@),
            _ => r is None,
        }
    } else {
        &&& after == if (t == "final"@ || t == "chat"@) && json_str_at(p, "content"@) is Some {
            json_str_at(p, "content"@)->0
        } else {
            before
        }
        &&& r matches Some(FrontendEvent::DaemonEvent { event_type, payload }) && event_type@ == t
            && payload == p
    }
}

/// Forwarding an `ask` event: when its payload has string members `task_id`
/// and `content`, the frontend is asked to confirm exactly those, with the
/// payload's `kind` when that is a string and no kind otherwise (in
/// particular none when the payload has no `kind` member); without them
/// nothing is forwarded. The final result is left as it was.
pub proof fn asks_forward_their_own_kind(ev: DaemonEvent, before: Seq<char>, after: Seq<char>, r: Option<
    FrontendEvent,
>)
    requires
        forward_effect(ev, before, after, r),
        ev.event_type@ == "ask"@,
    ensures
        after == before,
        (json_at(ev.payload, "task_id"@) is Str && json_at(ev.payload, "content"@) is Str) <==> r is Some,
        r matches Some(FrontendEvent::AwaitingConfirmation { task_id, content, kind }) ==> {
            &&& json_at(ev.payload, "task_id"@) matches JsonValue::Str(id) && task_id@ == id@
            &&& json_at(ev.payload, "content"@) matches JsonValue::Str(c) && content@ == c@
            &&& match json_at(ev.payload, "kind"@) {
                JsonValue::Str(k) => kind matches Some(x) && x@ == k@,
                _ => kind is None,
            }
        },
        r is Some ==> r matches Some(FrontendEvent::AwaitingConfirmation { .. }),
        json_get(ev.payload, "kind"@) is None && r is Some ==> (r matches Some(
            FrontendEvent::AwaitingConfirmation { kind, .. },
        ) && kind is None),
{
}

/// Forwarding any other event: it is passed on with its type and payload
/// unchanged, and a `final` or `chat` event whose `content` is a string makes
/// that string the final result; otherwise the final result stays.
pub proof fn other_events_pass_on_unchanged(ev: DaemonEvent, before: Seq<char>, after: Seq<char>, r: Option<
    FrontendEvent,
>)
    requires
        forward_effect(ev, before, after, r),
        ev.event_type@ != "ask"@,
    ensures
        r matches Some(FrontendEvent::DaemonEvent { event_type, payload }) && event_type@ == ev.event_type@
            && payload == ev.payload,
        after == match json_at(ev.payload, "content"@) {
            JsonValue::Str(c) => if ev.event_type@ == "final"@ || ev.event_type@ == "chat"@ {
                c@
            } else {
                before
            },
            _ => before,
        },
{
}

/// Handles one event of a running daemon task: keeps the content of `final`
/// and `chat` events as the task's result and returns what the frontend is
/// to be told.
pub fn forward_daemon_event(event: DaemonEvent, final_result: &mut String) -> (r: Option<FrontendEvent>)
    ensures
        forward_effect(event, old(final_result)@, final(final_result)@, r),
{
    if same_text(event.event_type.as_str(), "ask") {
        let task_id = event.payload.str_at("task_id");
        let content = event.payload.str_at("content");
        match (task_id, content) {
            (Some(id), Some(c)) => {
                let kind = match event.payload.str_at("kind") {
                    Some(k) => Some(k.to_string()),
                    None => None,
                };
                return Some(
                    FrontendEvent::AwaitingConfirmation {
                        task_id: id.to_string(),
                        content: c.to_string(),
                        kind,
                    },
                );
            },
            _ => {
                return None;
            },
        }
    }
    if same_text(event.event_type.as_str(), "final") || same_text(event.event_type.as_str(), "chat") {
        match event.payload.str_at("content") {
            Some(c) => {
                *final_result = c.to_string();
            },
            None => {},
        }
    }
    Some(FrontendEvent::DaemonEvent { event_type: event.event_type, payload: event.payload })
}

// ── A turn of the assistant ──────────────────────────────────────────────────

/// What a turn does once the model's answer is in.
#[derive(Debug, PartialEq)]
pub enum TurnStep {
    /// Tell the frontend this, and the turn is over.
    Emit(FrontendEvent),
    /// Hand the named job over to the daemon.
    Delegate { task: String, skill_type: String },
    /// The turn fails with this message.
    Fail(String),
}

/// The task a delegation's arguments name: `task`, or "unknown task".
pub open spec fn delegated_task(args: JsonValue) -> Seq<char> {
    match json_str_at(args, "task"@) {
        Some(t) => t,
        None => "unknown task"@,
    }
}

/// The skill a delegation's arguments name: `type`, or "fs".
pub open spec fn delegated_skill(args: JsonValue) -> Seq<char> {
    match json_str_at(args, "type"@) {
        Some(t) => t,
        None => "fs"@,
    }
}

/// What a turn does with the model's answer `res`. A text answer ends the
/// turn with `done`; a call of a tool other than `delegate_to_daemon` ends it
/// with an error event; a delegation whose arguments are not JSON fails the
/// turn; otherwise the task and skill named by the arguments are delegated.
/// A failed request ends the turn with an error event.
pub open spec fn turn_step_is(res: Result<LlmStreamResult, String>, r: TurnStep) -> bool {
    match res {
        Ok(LlmStreamResult::TextDone { full_text }) => r matches TurnStep::Emit(
            FrontendEvent::Done { full_text: f },
        ) && f@ == full_text@,
        Ok(LlmStreamResult::ToolCall { id, name, arguments }) => if name@ != "delegate_to_daemon"@ {
            r matches TurnStep::Emit(FrontendEvent::Error { message }) && message@ == "Unsupported tool: "@
                + name@
        } else {
            match json_parse_result(arguments@) {
                Err(e) => r matches TurnStep::Fail(m) && m@ == "Bad tool args JSON: "@ + e,
                Ok(args) => r matches TurnStep::Delegate { task, skill_type } && task@ == delegated_task(args)
                    && skill_type@ == delegated_skill(args),
            }
        },
        Err(e) => r matches TurnStep::Emit(FrontendEvent::Error { message }) && message@ == e@,
    }
}

/// What a turn does with the arguments of a `delegate_to_daemon` call, read
/// as JSON: the turn fails with `Bad tool args JSON: ` and the reason when
/// they could not be read; otherwise the task and skill they name are
/// delegated.
pub fn plan_delegation(parsed: Result<JsonValue, String>) -> (r: TurnStep)
    ensures
        match parsed {
            Err(e) => r matches TurnStep::Fail(m) && m@ == "Bad tool args JSON: "@ + e@,
            Ok(args) => r matches TurnStep::Delegate { task, skill_type } && task@ == delegated_task(args)
                && skill_type@ == delegated_skill(args),
        },
{
    match parsed {
        Err(e) => {
            let mut m = "Bad tool args JSON: ".to_string();
            m.append(e.as_str());
            TurnStep::Fail(m)
        },
        Ok(args) => {
            let task = match args.str_at("task") {
                Some(t) => t.to_string(),
                None => "unknown task".to_string(),
            };
            let skill_type = match args.str_at("type") {
                Some(t) => t.to_string(),
                None => "fs".to_string(),
            };
            TurnStep::Delegate { task, skill_type }
        },
    }
}

/// Decides what a turn does once the model's answer `res` is in.
pub fn plan_turn(res: Result<LlmStreamResult, String>) -> (r: TurnStep)
    ensures
        turn_step_is(res, r),
{
    match res {
        Ok(LlmStreamResult::TextDone { full_text }) => TurnStep::Emit(FrontendEvent::Done { full_text }),
        Ok(LlmStreamResult::ToolCall { id, name, arguments }) => {
            if !same_text(name.as_str(), "delegate_to_daemon") {
                let mut message = "Unsupported tool: ".to_string();
                message.append(name.as_str());
                return TurnStep::Emit(FrontendEvent::Error { message });
            }
            plan_delegation(parse_json(arguments.as_str()))
        },
        Err(e) => TurnStep::Emit(FrontendEvent::Error { message: e }),
    }
}

/// What the frontend is told when a daemon task has run: its error, or
/// `daemon_done` with the final result gathered from its events.
pub fn finish_daemon_task(res: Result<(), String>, final_result: String) -> (r: FrontendEvent)
    ensures
        match res {
            Ok(()) => r matches FrontendEvent::DaemonDone { result } && result@ == final_result@,
            Err(e) => r matches FrontendEvent::Error { message } && message@ == e@,
        },
{
    match res {
        Ok(()) => FrontendEvent::DaemonDone { result: final_result },
        Err(e) => FrontendEvent::Error { message: e },
    }
}

// ── Tasks sent straight to the daemon ────────────────────────────────────────

/// Events of a task sent to the daemon without the chat model, sent on the
/// `direct-daemon-event` channel.
#[derive(Debug, PartialEq)]
pub enum DirectDaemonEvent {
    Started { task: String, skill_type: String },
    Event { event_type: String, payload: JsonValue },
    Done,
    Error { message: String },
}

impl DirectDaemonEvent {
    /// The JSON object the frontend receives: the tag `kind` first, then the
    /// variant's fields.
    pub fn to_wire(self) -> (r: JsonValue)
        ensures
            r matches JsonValue::Object(es) && match self {
                DirectDaemonEvent::Started { task, skill_type } => es@.len() == 3 && str_member(
                    es@[0],
                    "kind"@,
                    "started"@,
                ) && str_member(es@[1], "task"@, task@) && str_member(es@[2], "skill_type"@, skill_type@),
                DirectDaemonEvent::Event { event_type, payload } => es@.len() == 3 && str_member(
                    es@[0],
                    "kind"@,
                    "event"@,
                ) && str_member(es@[1], "event_type"@, event_type@) && es@[2].0@ == "payload"@ && es@[2].1
                    == payload,
                DirectDaemonEvent::Done => es@.len() == 1 && str_member(es@[0], "kind"@, "done"@),
                DirectDaemonEvent::Error { message } => es@.len() == 2 && str_member(es@[0], "kind"@, "error"@)
                    && str_member(es@[1], "message"@, message@),
            },
    {
        let es = match self {
            DirectDaemonEvent::Started { task, skill_type } => vec![
                str_entry("kind", "started".to_string()),
                str_entry("task", task),
                str_entry("skill_type", skill_type),
            ],
            DirectDaemonEvent::Event { event_type, payload } => vec![
                str_entry("kind", "event".to_string()),
                str_entry("event_type", event_type),
                ("payload".to_string(), payload),
            ],
            DirectDaemonEvent::Done => vec![str_entry("kind", "done".to_string())],
            DirectDaemonEvent::Error { message } => vec![
                str_entry("kind", "error".to_string()),
                str_entry("message", message),
            ],
        };
        JsonValue::Object(es)
    }
}

/// The task and skill of a direct task, trimmed; refused when either is blank.
pub fn validate_direct_task(task: &str, skill_type: &str) -> (r: Result<(String, String), String>)
    ensures
        trim(task@).len() == 0 ==> (r matches Err(m) && m@ == "Task cannot be empty"@),
        trim(task@).len() > 0 && trim(skill_type@).len() == 0 ==> (r matches Err(m) && m@
            == "Type cannot be empty"@),
        trim(task@).len() > 0 && trim(skill_type@).len() > 0 ==> (r matches Ok((t, s)) && t@ == trim(task@)
            && s@ == trim(skill_type@)),
{
    let task = trim_str(task);
    let skill_type = trim_str(skill_type);
    if task.as_str().is_empty() {
        return Err("Task cannot be empty".to_string());
    }
    if skill_type.as_str().is_empty() {
        return Err("Type cannot be empty".to_string());
    }
    Ok((task, skill_type))
}

} // verus!
