//! The line protocol spoken with the ARIA daemon over its TCP socket: the
//! request lines the GUI writes, what it makes of each reply line, and the
//! policy for reconnecting.
use vstd::prelude::*;
use vstd::string::StringExecFns;
use crate::json::{
    JsonValue, encode_object, json_parse_result, json_str_at, json_string_literal, member_views,
    object_text, opt_string_text, parse_json, quote_json, result_view,
};
use crate::text::{opt_chars, same_text, trim, trim_str};

verus! {

// ── Request encoding ─────────────────────────────────────────────────────────

/// The JSON request that hands the daemon a task.
#[derive(Debug, Clone, PartialEq)]
pub struct DaemonRequest {
    pub task: String,
    pub skill_type: String,
    pub task_id: Option<String>,
}

/// The text of a task request: `{"task":…,"Type":…,"task_id":…}`.
pub open spec fn task_request_text(task: Seq<char>, skill_type: Seq<char>, task_id: Option<Seq<char>>) -> Seq<char> {
    object_text(
        seq![
            ("task"@, json_string_literal(task)),
            ("Type"@, json_string_literal(skill_type)),
            ("task_id"@, opt_string_text(task_id)),
        ],
    )
}

impl DaemonRequest {
    /// The request's JSON text, as the daemon reads it.
    pub fn encode(&self) -> (r: String)
        ensures
            r@ == task_request_text(self.task@, self.skill_type@, opt_chars(self.task_id)),
    {
        let id_text = match &self.task_id {
            Some(id) => quote_json(id.as_str()),
            None => "null".to_string(),
        };
        let fs = vec![
            ("task", quote_json(self.task.as_str())),
            ("Type", quote_json(self.skill_type.as_str())),
            ("task_id", id_text),
        ];
        let r = encode_object(&fs);
        proof {
            reveal_strlit("null");
            assert(member_views(fs@) =~= seq![
                ("task"@, json_string_literal(self.task@)),
                ("Type"@, json_string_literal(self.skill_type@)),
                ("task_id"@, opt_string_text(opt_chars(self.task_id))),
            ]);
        }
        r
    }
}


/// The text of a read-only query request: `{"query":…}`.
pub open spec fn query_request_text(query: Seq<char>) -> Seq<char> {
    object_text(seq![("query"@, json_string_literal(query))])
}

/// Writes the request for a read-only query (`query_budget`, `query_holds`, …).
pub fn encode_query_request(query: &str) -> (r: String)
    ensures
        r@ == query_request_text(query@),
{
    let fs = vec![("query", quote_json(query))];
    proof {
        assert(member_views(fs@) =~= seq![("query"@, json_string_literal(query@))]);
    }
    encode_object(&fs)
}

/// The text of an account allowlist mutation:
/// `{"mutate":"mutate_allowlist","action":…,"account":…}`.
pub open spec fn allowlist_request_text(action: Seq<char>, account: Seq<char>) -> Seq<char> {
    object_text(
        seq![
            ("mutate"@, json_string_literal("mutate_allowlist"@)),
            ("action"@, json_string_literal(action)),
            ("account"@, json_string_literal(account)),
        ],
    )
}

/// Writes the request that adds an account to the payment allowlist or
/// removes it (`action` is "add" or "remove").
pub fn encode_allowlist_request(action: &str, account: &str) -> (r: String)
    ensures
        r@ == allowlist_request_text(action@, account@),
{
    let fs = vec![
        ("mutate", quote_json("mutate_allowlist")),
        ("action", quote_json(action)),
        ("account", quote_json(account)),
    ];
    proof {
        assert(member_views(fs@) =~= seq![
            ("mutate"@, json_string_literal("mutate_allowlist"@)),
            ("action"@, json_string_literal(action@)),
            ("account"@, json_string_literal(account@)),
        ]);
    }
    encode_object(&fs)
}

/// The text of a URL allowlist mutation:
/// `{"mutate":"mutate_url_allowlist","action":…,"url":…}`.
pub open spec fn url_allowlist_request_text(action: Seq<char>, url: Seq<char>) -> Seq<char> {
    object_text(
        seq![
            ("mutate"@, json_string_literal("mutate_url_allowlist"@)),
            ("action"@, json_string_literal(action)),
            ("url"@, json_string_literal(url)),
        ],
    )
}

/// Writes the request that adds a URL to the x402 URL allowlist or removes it.
pub fn encode_url_allowlist_request(action: &str, url: &str) -> (r: String)
    ensures
        r@ == url_allowlist_request_text(action@, url@),
{
    let fs = vec![
        ("mutate", quote_json("mutate_url_allowlist")),
        ("action", quote_json(action)),
        ("url", quote_json(url)),
    ];
    proof {
        assert(member_views(fs@) =~= seq![
            ("mutate"@, json_string_literal("mutate_url_allowlist"@)),
            ("action"@, json_string_literal(action@)),
            ("url"@, json_string_literal(url@)),
        ]);
    }
    encode_object(&fs)
}

/// The text of a rate-status query for one URL:
/// `{"query":"query_url_rate_status","url":…}`.
pub open spec fn url_rate_status_request_text(url: Seq<char>) -> Seq<char> {
    object_text(
        seq![
            ("query"@, json_string_literal("query_url_rate_status"@)),
            ("url"@, json_string_literal(url)),
        ],
    )
}

/// Writes the request for the rate-limit status of one allowlisted URL.
pub fn encode_url_rate_status_request(url: &str) -> (r: String)
    ensures
        r@ == url_rate_status_request_text(url@),
{
    let fs = vec![("query", quote_json("query_url_rate_status")), ("url", quote_json(url))];
    proof {
        assert(member_views(fs@) =~= seq![
            ("query"@, json_string_literal("query_url_rate_status"@)),
            ("url"@, json_string_literal(url@)),
        ]);
    }
    encode_object(&fs)
}

/// The text of a hold mutation: `{"mutate":…,"payment_key":…}`.
pub open spec fn hold_request_text(mutate: Seq<char>, payment_key: Seq<char>) -> Seq<char> {
    object_text(
        seq![
            ("mutate"@, json_string_literal(mutate)),
            ("payment_key"@, json_string_literal(payment_key)),
        ],
    )
}

/// Writes a request acting on one outstanding hold (`mutate` is
/// "approve_hold" or "release_hold").
pub fn encode_hold_request(mutate: &str, payment_key: &str) -> (r: String)
    ensures
        r@ == hold_request_text(mutate@, payment_key@),
{
    let fs = vec![("mutate", quote_json(mutate)), ("payment_key", quote_json(payment_key))];
    proof {
        assert(member_views(fs@) =~= seq![
            ("mutate"@, json_string_literal(mutate@)),
            ("payment_key"@, json_string_literal(payment_key@)),
        ]);
    }
    encode_object(&fs)
}

/// The request for approving a hold, which turns it into a payment.
pub fn encode_approve_hold_request(payment_key: &str) -> (r: String)
    ensures
        r@ == hold_request_text("approve_hold"@, payment_key@),
{
    encode_hold_request("approve_hold", payment_key)
}

/// The request for releasing a hold without paying it.
pub fn encode_release_hold_request(payment_key: &str) -> (r: String)
    ensures
        r@ == hold_request_text("release_hold"@, payment_key@),
{
    encode_hold_request("release_hold", payment_key)
}

/// One protocol line: the JSON text followed by a line feed.
pub fn frame_line(json: &str) -> (r: String)
    ensures
        r@ == json@ + "\n"@,
{
    let mut r = json.to_string();
    r.append("\n");
    r
}


// ── Reply handling ───────────────────────────────────────────────────────────

/// Every line the daemon sends back while it works on a task: the event's
/// `type` and the rest of the line's members.
#[derive(Debug, PartialEq)]
pub struct DaemonEvent {
    pub event_type: String,
    pub payload: JsonValue,
}

/// The members of `es` except those named `key`, in order.
pub open spec fn without_key(es: Seq<(String, JsonValue)>, key: Seq<char>) -> Seq<(String, JsonValue)>
    decreases es.len(),
{
    if es.len() == 0 {
        es
    } else {
        let rest = without_key(es.drop_last(), key);
        if es.last().0@ == key {
            rest
        } else {
            rest.push(es.last())
        }
    }
}

/// `ev` is the event that the document `v` describes: its `type` is `t` and
/// its payload is the object of the other members of `v`.
pub open spec fn is_event_of(ev: DaemonEvent, v: JsonValue, t: Seq<char>) -> bool {
    &&& ev.event_type@ == t
    &&& ev.payload matches JsonValue::Object(ps)
    &&& v matches JsonValue::Object(es)
    &&& ps@ == without_key(es@, "type"@)
}

proof fn lemma_without_key_members(es: Seq<(String, JsonValue)>, key: Seq<char>)
    ensures
        forall|i: int| 0 <= i < es.len() && (#[trigger] es[i]).0@ != key ==> without_key(es, key).contains(es[i]),
        forall|j: int|
            0 <= j < without_key(es, key).len() ==> (#[trigger] without_key(es, key)[j]).0@ != key && es.contains(
                without_key(es, key)[j],
            ),
    decreases es.len(),
{
    if es.len() > 0 {
        let t = es.drop_last();
        let rest = without_key(t, key);
        lemma_without_key_members(t, key);
        let w = without_key(es, key);
        assert forall|i: int| 0 <= i < es.len() && (#[trigger] es[i]).0@ != key implies w.contains(es[i]) by {
            if i < es.len() - 1 {
                assert(t[i] == es[i]);
                assert(rest.contains(es[i]));
                let k = choose|k: int| 0 <= k < rest.len() && rest[k] == es[i];
                if es.last().0@ != key {
                    assert(w[k] == rest[k]);
                }
            } else {
                assert(w[rest.len() as int] == es[i]);
            }
        }
        assert forall|j: int| 0 <= j < w.len() implies (#[trigger] w[j]).0@ != key && es.contains(w[j]) by {
            if j < rest.len() {
                assert(w[j] == rest[j]);
                let k = choose|k: int| 0 <= k < t.len() && t[k] == rest[j];
                assert(es[k] == t[k]);
            } else {
                assert(w[j] == es[es.len() - 1]);
            }
        }
    }
}

/// Leaving out the members named `key` works member by member: on a single
/// member it keeps it exactly when it is not named `key`, and on two runs of
/// members it is the two results one after the other. Together these say
/// the result is the members not named `key`, each once, in their order.
pub proof fn without_key_member_by_member(a: Seq<(String, JsonValue)>, b: Seq<(String, JsonValue)>, key: Seq<char>)
    ensures
        without_key(a + b, key) == without_key(a, key) + without_key(b, key),
        a.len() == 1 ==> without_key(a, key) == (if a[0].0@ == key {
            Seq::<(String, JsonValue)>::empty()
        } else {
            a
        }),
    decreases b.len(),
{
    if a.len() == 1 {
        assert(a.drop_last() =~= Seq::<(String, JsonValue)>::empty());
        assert(without_key(a.drop_last(), key) == Seq::<(String, JsonValue)>::empty());
        assert(a.last() == a[0]);
        assert(Seq::<(String, JsonValue)>::empty().push(a.last()) =~= a);
    }
    if b.len() == 0 {
        assert(a + b =~= a);
        assert(without_key(a, key) + without_key(b, key) =~= without_key(a, key));
    } else {
        without_key_member_by_member(a, b.drop_last(), key);
        assert((a + b).drop_last() =~= a + b.drop_last());
        assert((a + b).last() == b.last());
        let x = without_key(a, key);
        let y = without_key(b.drop_last(), key);
        if b.last().0@ != key {
            assert((x + y).push(b.last()) =~= x + y.push(b.last()));
        }
    }
}

/// The payload of an event holds every member of its document except the
/// `type` member: each member not named `type` is in the payload, and each
/// member of the payload is a member of the document not named `type`.
pub proof fn event_payload_is_the_other_members(ev: DaemonEvent, v: JsonValue, t: Seq<char>)
    requires
        is_event_of(ev, v, t),
    ensures
        ev.event_type@ == t,
        ev.payload matches JsonValue::Object(ps) && v matches JsonValue::Object(es) && (forall|i: int|
            0 <= i < es@.len() && (#[trigger] es@[i]).0@ != "type"@ ==> ps@.contains(es@[i])) && (forall|j: int|
            0 <= j < ps@.len() ==> (#[trigger] ps@[j]).0@ != "type"@ && es@.contains(ps@[j])),
{
    match (ev.payload, v) {
        (JsonValue::Object(ps), JsonValue::Object(es)) => {
            lemma_without_key_members(es@, "type"@);
        },
        _ => {},
    }
}

/// Reads an event out of a document: present when the document is an object
/// whose `type` member is a string.
pub fn decode_daemon_event(v: JsonValue) -> (r: Option<DaemonEvent>)
    ensures
        match json_str_at(v, "type"@) {
            Some(t) => r matches Some(ev) && is_event_of(ev, v, t),
            None => r is None,
        },
{
    let event_type = match v.str_at("type") {
        Some(t) => t.to_string(),
        None => {
            return None;
        },
    };
    match v {
        JsonValue::Object(es) => {
            let ghost es0 = es@;
            let mut ps: Vec<(String, JsonValue)> = Vec::new();
            broadcast use vstd::std_specs::vec::axiom_spec_into_iter;
            for e in it: es
                invariant
                    it.seq() == es0,
                    ps@ == without_key(es0.take(it.index() as int), "type"@),
            {
                let ghost i = it.index();
                proof {
                    assert(es0.take(i + 1).drop_last() =~= es0.take(i as int));
                    assert(es0.take(i + 1).last() == es0[i as int]);
                }
                if !same_text(e.0.as_str(), "type") {
                    ps.push(e);
                }
            }
            proof {
                assert(es0.take(es0.len() as int) =~= es0);
            }
            Some(DaemonEvent { event_type, payload: JsonValue::Object(ps) })
        },
        _ => None,
    }
}

/// The text of a reply line that is not JSON: `Parse error on '<line>': <e>`.
pub open spec fn parse_error_text(line: Seq<char>, e: Seq<char>) -> Seq<char> {
    "Parse error on '"@ + line + "': "@ + e
}

/// Builds `Parse error on '<line>': <e>`.
pub fn parse_error_message(line: &str, e: &str) -> (r: String)
    ensures
        r@ == parse_error_text(line@, e@),
{
    let mut m = "Parse error on '".to_string();
    m.append(line);
    m.append("': ");
    m.append(e);
    m
}

/// The message of a `query_error` reply: its `message` member, or a fixed text.
pub open spec fn daemon_error_text(v: JsonValue) -> Seq<char> {
    match json_str_at(v, "message"@) {
        Some(m) => m,
        None => "unknown daemon error"@,
    }
}

/// Reads the message out of a `query_error` reply.
pub fn daemon_error_message(v: &JsonValue) -> (r: String)
    ensures
        r@ == daemon_error_text(*v),
{
    match v.str_at("message") {
        Some(m) => m.to_string(),
        None => "unknown daemon error".to_string(),
    }
}

/// What a reply line `line` to a single-shot request comes to, given what
/// reading it as JSON gave: the daemon's answer, or the error the request
/// fails with (the line is not JSON, or it is a `query_error` reply).
pub open spec fn reply_outcome(line: Seq<char>, parsed: Result<JsonValue, Seq<char>>) -> Result<JsonValue, Seq<char>> {
    match parsed {
        Err(e) => Err(parse_error_text(line, e)),
        Ok(v) => if json_str_at(v, "type"@) == Some("query_error"@) {
            Err(daemon_error_text(v))
        } else {
            Ok(v)
        },
    }
}

/// What one reply line to a single-shot request comes to: the daemon's
/// answer, or the error the request fails with.
pub open spec fn query_reply_outcome(raw: Seq<char>) -> Result<JsonValue, Seq<char>> {
    let line = trim(raw);
    if line.len() == 0 {
        Err("Empty response from daemon"@)
    } else {
        reply_outcome(line, json_parse_result(line))
    }
}

/// The answer a reply line `line` gives, from what reading it as JSON gave.
pub fn answer_of_reply(line: &str, parsed: Result<JsonValue, String>) -> (r: Result<JsonValue, String>)
    ensures
        result_view(r) == reply_outcome(line@, result_view(parsed)),
{
    match parsed {
        Err(e) => Err(parse_error_message(line, e.as_str())),
        Ok(v) => {
            let is_error = match v.str_at("type") {
                Some(t) => same_text(t, "query_error"),
                None => false,
            };
            if is_error {
                Err(daemon_error_message(&v))
            } else {
                Ok(v)
            }
        },
    }
}

/// The answer to a single-shot request (a query or a mutation), read from the
/// one line the daemon writes back before it closes the socket.
pub fn interpret_query_reply(raw: &str) -> (r: Result<JsonValue, String>)
    ensures
        result_view(r) == query_reply_outcome(raw@),
{
    let line = trim_str(raw);
    if line.as_str().is_empty() {
        return Err("Empty response from daemon".to_string());
    }
    let parsed = parse_json(line.as_str());
    answer_of_reply(line.as_str(), parsed)
}


/// What a session does with one line: nothing, or hand an event on.
#[derive(Debug, PartialEq)]
pub enum LineAction {
    Ignore,
    Deliver(DaemonEvent),
}

/// The state of an `approve_hold` / `release_hold` exchange: the reply lines
/// are read one by one until a `mutate_hold` line answers the request or a
/// `query_error` line refuses it; other typed lines are progress events.
pub struct HoldSession {
    /// The exchange's result, once a line has settled it.
    pub outcome: Option<Result<JsonValue, String>>,
}

/// `o` is the outcome `v` (when `Ok`) or the message `m` (when `Err`).
pub open spec fn outcome_is(o: Option<Result<JsonValue, String>>, r: Result<JsonValue, Seq<char>>) -> bool {
    match (o, r) {
        (Some(Ok(v)), Ok(w)) => v == w,
        (Some(Err(e)), Err(m)) => e@ == m,
        _ => false,
    }
}

/// What a hold exchange does with the reply line `line` (trimmed, not
/// blank) while it is open, given what reading it as JSON gave: the new
/// outcome and the action.
pub open spec fn hold_reply_effect(
    line: Seq<char>,
    parsed: Result<JsonValue, Seq<char>>,
    o: Option<Result<JsonValue, String>>,
    a: LineAction,
) -> bool {
    match parsed {
        Err(e) => outcome_is(o, Err(parse_error_text(line, e))) && a is Ignore,
        Ok(v) => match json_str_at(v, "type"@) {
            None => o is None && a is Ignore,
            Some(t) => if t == "mutate_hold"@ {
                outcome_is(o, Ok(v)) && a is Ignore
            } else if t == "query_error"@ {
                outcome_is(o, Err(daemon_error_text(v))) && a is Ignore
            } else {
                o is None && (a matches LineAction::Deliver(ev) && is_event_of(ev, v, t))
            },
        },
    }
}

/// What a hold exchange does with the reply line `raw` while it is open:
/// the new outcome and the action.
pub open spec fn hold_line_effect(raw: Seq<char>, o: Option<Result<JsonValue, String>>, a: LineAction) -> bool {
    let line = trim(raw);
    if line.len() == 0 {
        o is None && a is Ignore
    } else {
        hold_reply_effect(line, json_parse_result(line), o, a)
    }
}

impl HoldSession {
    /// An exchange that no line has settled yet.
    pub fn new() -> (s: HoldSession)
        ensures
            s.outcome is None,
    {
        HoldSession { outcome: None }
    }

    /// Whether a line has settled the exchange (the reader stops then).
    pub fn is_done(&self) -> (r: bool)
        ensures
            r == (self.outcome is Some),
    {
        self.outcome.is_some()
    }

    /// Takes one reply line. Once the exchange is settled every further line
    /// is ignored and the outcome stays as it is.
    pub fn feed(&mut self, raw: &str) -> (a: LineAction)
        ensures
            old(self).outcome is Some ==> a is Ignore && final(self).outcome == old(self).outcome,
            old(self).outcome is None ==> hold_line_effect(raw@, final(self).outcome, a),
    {
        if self.outcome.is_some() {
            return LineAction::Ignore;
        }
        let line = trim_str(raw);
        if line.as_str().is_empty() {
            return LineAction::Ignore;
        }
        let parsed = parse_json(line.as_str());
        self.take(line.as_str(), parsed)
    }

    /// Takes the reply line `line` (trimmed, not blank) given what reading it
    /// as JSON gave. Once the exchange is settled the line is ignored and the
    /// outcome stays as it is.
    pub fn take(&mut self, line: &str, parsed: Result<JsonValue, String>) -> (a: LineAction)
        ensures
            old(self).outcome is Some ==> a is Ignore && final(self).outcome == old(self).outcome,
            old(self).outcome is None ==> hold_reply_effect(line@, result_view(parsed), final(self).outcome, a),
    {
        if self.outcome.is_some() {
            return LineAction::Ignore;
        }
        match parsed {
            Err(e) => {
                self.outcome = Some(Err(parse_error_message(line, e.as_str())));
                LineAction::Ignore
            },
            Ok(v) => {
                let kind = match v.str_at("type") {
                    Some(t) => if same_text(t, "mutate_hold") {
                        1u8
                    } else if same_text(t, "query_error") {
                        2u8
                    } else {
                        3u8
                    },
                    None => 0u8,
                };
                if kind == 1 {
                    self.outcome = Some(Ok(v));
                    LineAction::Ignore
                } else if kind == 2 {
                    self.outcome = Some(Err(daemon_error_message(&v)));
                    LineAction::Ignore
                } else if kind == 3 {
                    match decode_daemon_event(v) {
                        Some(ev) => LineAction::Deliver(ev),
                        None => LineAction::Ignore,
                    }
                } else {
                    LineAction::Ignore
                }
            },
        }
    }

    /// The exchange's result: what settled it, or `null` when the reply ended
    /// without a `mutate_hold` or `query_error` line.
    pub fn finish(self) -> (r: Result<JsonValue, String>)
        ensures
            self.outcome is None ==> r == Ok::<JsonValue, String>(JsonValue::Null),
            self.outcome is Some ==> Some(r) == self.outcome,
    {
        match self.outcome {
            Some(r) => r,
            None => Ok(JsonValue::Null),
        }
    }
}

/// Whether an event of type `t` ends a task's event stream.
pub open spec fn is_terminal_type(t: Seq<char>) -> bool {
    t == "done"@ || t == "error"@
}

/// An event ends a task's event stream exactly when its type is `done` or
/// `error`: every other type, `observation` and `final` among them, leaves
/// the stream open.
pub proof fn only_done_and_error_end_a_stream(t: Seq<char>)
    ensures
        is_terminal_type(t) <==> (t =~= "done"@ || t =~= "error"@),
{
}

/// Whether `ev` ends a task's event stream (`done` or `error`).
pub fn is_terminal_event(ev: &DaemonEvent) -> (r: bool)
    ensures
        r == is_terminal_type(ev.event_type@),
{
    same_text(ev.event_type.as_str(), "done") || same_text(ev.event_type.as_str(), "error")
}

/// The text of a reply line as it is read: trimmed; `None` when it is blank
/// (blank lines are skipped).
pub fn reply_text(raw: &str) -> (r: Option<String>)
    ensures
        match r {
            Some(t) => trim(raw@).len() > 0 && t@ == trim(raw@),
            None => trim(raw@).len() == 0,
        },
{
    let line = trim_str(raw);
    if line.as_str().is_empty() {
        None
    } else {
        Some(line)
    }
}

/// The state of a task submission: reply lines are events, handed on one by
/// one until a `done` or `error` event ends the stream; a line that is not
/// an event fails the submission.
pub struct SubmitSession {
    /// Whether the stream has ended.
    pub finished: bool,
    /// The failure, when a line was not an event.
    pub failure: Option<String>,
}

impl SubmitSession {
    /// A failure is only ever recorded together with the end of the stream.
    pub open spec fn wf(&self) -> bool {
        !self.finished ==> self.failure is None
    }

    /// A submission whose stream has not started.
    pub fn new() -> (s: SubmitSession)
        ensures
            s.wf(),
            !s.finished,
            s.failure is None,
    {
        SubmitSession { finished: false, failure: None }
    }

    /// Takes the non-blank reply line `line` with what reading it as a
    /// `DaemonEvent` gave (the event, or the text of the error the reader
    /// reported). An event is handed on and ends the stream when it is `done`
    /// or `error`; an error ends the stream and fails the submission. Once the
    /// stream has ended every further line is ignored.
    pub fn take(&mut self, line: &str, parsed: Result<DaemonEvent, String>) -> (a: LineAction)
        requires
            old(self).wf(),
        ensures
            final(self).wf(),
            old(self).finished ==> a is Ignore && final(self).finished == old(self).finished
                && final(self).failure == old(self).failure,
            !old(self).finished ==> match parsed {
                Ok(ev) => a == LineAction::Deliver(ev) && final(self).finished == is_terminal_type(ev.event_type@)
                    && final(self).failure is None,
                Err(e) => a is Ignore && final(self).finished && (final(self).failure matches Some(m) && m@
                    == parse_error_text(line@, e@)),
            },
    {
        if self.finished {
            return LineAction::Ignore;
        }
        match parsed {
            Ok(ev) => {
                self.finished = is_terminal_event(&ev);
                LineAction::Deliver(ev)
            },
            Err(e) => {
                self.finished = true;
                self.failure = Some(parse_error_message(line, e.as_str()));
                LineAction::Ignore
            },
        }
    }

    /// The submission's result: the failure, or success.
    pub fn finish(self) -> (r: Result<(), String>)
        ensures
            match self.failure {
                Some(m) => r matches Err(e) && e@ == m@,
                None => r is Ok,
            },
    {
        match self.failure {
            Some(m) => Err(m),
            None => Ok(()),
        }
    }
}

/// A reply the daemon marks as a `query_error` is never handed back as an
/// answer: it always becomes the request's error.
pub proof fn query_error_never_answers(raw: Seq<char>)
    ensures
        query_reply_outcome(raw) matches Ok(v) ==> json_str_at(v, "type"@) != Some("query_error"@),
{
}

// ── Reconnecting ─────────────────────────────────────────────────────────────

/// Connection attempts made before giving up.
pub const MAX_RETRIES: u32 = 4;
/// The wait after the first failed attempt, in milliseconds.
pub const BASE_RETRY_MS: u64 = 300;
/// The longest wait between two attempts, in milliseconds.
pub const MAX_RETRY_DELAY_MS: u64 = 5000;

/// The wait after attempt `attempt` failed: it starts at `BASE_RETRY_MS` and
/// doubles each time, up to `MAX_RETRY_DELAY_MS`.
pub open spec fn retry_delay(attempt: nat) -> nat
    decreases attempt,
{
    if attempt <= 1 {
        BASE_RETRY_MS as nat
    } else {
        let d = 2 * retry_delay((attempt - 1) as nat);
        if d < MAX_RETRY_DELAY_MS {
            d
        } else {
            MAX_RETRY_DELAY_MS as nat
        }
    }
}

/// Where a connection loop stands: the attempt being made and the wait that
/// follows it if it fails.
pub struct RetryState {
    pub attempt: u32,
    pub delay_ms: u64,
}

/// What to do after a failed connection attempt.
#[derive(Debug, Clone, PartialEq)]
pub enum RetryAction {
    /// Wait this many milliseconds, then try again.
    Wait(u64),
    /// Stop, failing with this message.
    GiveUp(String),
}

/// The message a connection loop gives up with, after the last error `e`.
pub open spec fn unreachable_text(e: Seq<char>) -> Seq<char> {
    "Daemon unreachable after 4 attempts: "@ + e
}

impl RetryState {
    /// The attempt counts from 1 to `MAX_RETRIES` and the wait matches it.
    pub open spec fn wf(&self) -> bool {
        &&& 1 <= self.attempt <= MAX_RETRIES
        &&& self.delay_ms == retry_delay(self.attempt as nat)
    }

    /// Before the first attempt.
    pub fn new() -> (s: RetryState)
        ensures
            s.wf(),
            s.attempt == 1,
            s.delay_ms == BASE_RETRY_MS,
    {
        RetryState { attempt: 1, delay_ms: BASE_RETRY_MS }
    }

    /// Decides what follows a failed attempt that reported `error`: wait and
    /// try again, or give up once `MAX_RETRIES` attempts have failed.
    pub fn on_failure(&mut self, error: &str) -> (a: RetryAction)
        requires
            old(self).wf(),
        ensures
            old(self).attempt == MAX_RETRIES ==> *final(self) == *old(self) && (a matches RetryAction::GiveUp(m)
                && m@ == unreachable_text(error@)),
            old(self).attempt < MAX_RETRIES ==> a == RetryAction::Wait(old(self).delay_ms) && final(self).wf()
                && final(self).attempt == old(self).attempt + 1,
    {
        if self.attempt == MAX_RETRIES {
            let mut m = "Daemon unreachable after 4 attempts: ".to_string();
            m.append(error);
            return RetryAction::GiveUp(m);
        }
        let wait = self.delay_ms;
        let doubled = self.delay_ms * 2;
        self.delay_ms = if doubled < MAX_RETRY_DELAY_MS {
            doubled
        } else {
            MAX_RETRY_DELAY_MS
        };
        self.attempt = self.attempt + 1;
        RetryAction::Wait(wait)
    }
}

/// The waits between connection attempts never exceed `MAX_RETRY_DELAY_MS`
/// and never drop below `BASE_RETRY_MS`.
pub proof fn retry_delay_bounded(attempt: nat)
    ensures
        BASE_RETRY_MS <= retry_delay(attempt) <= MAX_RETRY_DELAY_MS,
    decreases attempt,
{
    if attempt > 1 {
        retry_delay_bounded((attempt - 1) as nat);
    }
}

/// A connection loop that keeps failing waits 300, 600 and 1200 ms between
/// its four attempts and then gives up: the wait doubles from attempt to
/// attempt while it stays under the cap.
pub proof fn retry_schedule()
    ensures
        retry_delay(1) == 300,
        retry_delay(2) == 600,
        retry_delay(3) == 1200,
        MAX_RETRIES == 4,
        forall|k: nat| 1 <= k && 2 * retry_delay(k) < MAX_RETRY_DELAY_MS ==> #[trigger] retry_delay(k + 1) == 2 * retry_delay(k),
{
    assert(retry_delay(1) == 300);
    assert(retry_delay(2) == 600);
    assert(retry_delay(3) == 1200);
}

} // verus!
