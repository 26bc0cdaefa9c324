//! What the chat history store decides on its own: the JSON a pending
//! confirmation is kept as, what loading one gives, which sessions clearing
//! a task touches and what it leaves, the schema column test and the clock
//! reading. The SQL itself, and the reading of a stored record into its
//! fields, run in the app.
use vstd::prelude::*;
use crate::json::{
    JsonValue, encode_object, json_at, json_parse_result, json_str_at, json_string_literal, member_views, object_text,
    opt_string_text, parse_json, quote_json,
};
use crate::text::same_text;

verus! {

/// A chat message as stored.
#[derive(Debug, Clone, PartialEq)]
pub struct StoredMessage {
    pub id: i64,
    pub session_id: String,
    pub role: String,
    pub content: String,
    pub timestamp: i64,
}

/// A confirmation the daemon asked for and the user has not answered yet.
#[derive(Debug, Clone, PartialEq)]
pub struct PendingConfirmation {
    pub task_id: String,
    pub content: String,
    pub kind: Option<String>,
    pub skill_type: String,
}

/// The JSON text a pending confirmation is stored as:
/// `{"task_id":…,"content":…,"kind":…,"skill_type":…}`.
pub open spec fn pending_text(task_id: Seq<char>, content: Seq<char>, kind: Option<Seq<char>>, skill_type: Seq<char>) -> Seq<char> {
    object_text(
        seq![
            ("task_id"@, json_string_literal(task_id)),
            ("content"@, json_string_literal(content)),
            ("kind"@, opt_string_text(kind)),
            ("skill_type"@, json_string_literal(skill_type)),
        ],
    )
}

/// The view of an optional string slice.
pub open spec fn opt_str(k: Option<&str>) -> Option<Seq<char>> {
    match k {
        Some(t) => Some(t@),
        None => None,
    }
}

/// Writes the JSON text of the pending confirmation built from these parts.
pub fn encode_pending_confirmation(task_id: &str, content: &str, kind: Option<&str>, skill_type: &str) -> (r: String)
    ensures
        r@ == pending_text(task_id@, content@, opt_str(kind), skill_type@),
{
    let kind_text = match kind {
        Some(k) => quote_json(k),
        None => "null".to_string(),
    };
    let fs = vec![
        ("task_id", quote_json(task_id)),
        ("content", quote_json(content)),
        ("kind", kind_text),
        ("skill_type", quote_json(skill_type)),
    ];
    let r = encode_object(&fs);
    assert(member_views(fs@) == seq![
        ("task_id"@, json_string_literal(task_id@)),
        ("content"@, json_string_literal(content@)),
        ("kind"@, opt_string_text(opt_str(kind))),
        ("skill_type"@, json_string_literal(skill_type@)),
    ]);
    r
}

/// What loading a session's stored confirmation gives, from the column's
/// value read as a confirmation record (`None` when the column is `NULL`,
/// else the record or the reason it could not be read): the record when
/// there is one, nothing otherwise.
pub fn loaded_pending_confirmation(stored: Option<Result<PendingConfirmation, String>>) -> (r: Option<
    PendingConfirmation,
>)
    ensures
        r == match stored {
            Some(Ok(p)) => Some(p),
            _ => None::<PendingConfirmation>,
        },
{
    match stored {
        Some(Ok(p)) => Some(p),
        _ => None,
    }
}

/// Whether the document `v` names the task `task_id`: its `task_id` member
/// is that string.
pub open spec fn names_task(v: JsonValue, task_id: Seq<char>) -> bool {
    json_str_at(v, "task_id"@) == Some(task_id)
}

/// A document names exactly one task, the string its `task_id` member holds,
/// and no task when that member is missing or not a string: a task id that
/// merely starts or ends like the stored one is another task.
pub proof fn a_document_names_only_its_own_task(v: JsonValue, a: Seq<char>, b: Seq<char>)
    ensures
        json_at(v, "task_id"@) matches JsonValue::Str(t) ==> (names_task(v, b) <==> t@ == b),
        !(json_at(v, "task_id"@) is Str) ==> !names_task(v, b),
        names_task(v, a) && names_task(v, b) ==> a == b,
{
}

/// Whether the document `v` names the task `task_id` (`v["task_id"]` is
/// that string).
pub fn document_names_task(v: &JsonValue, task_id: &str) -> (r: bool)
    ensures
        r == names_task(*v, task_id@),
{
    match v.str_at("task_id") {
        Some(t) => same_text(t, task_id),
        None => false,
    }
}

/// Whether the stored confirmation text belongs to the task `task_id`: it is
/// JSON whose `task_id` member is that string.
pub open spec fn pending_matches(pending_json: Seq<char>, task_id: Seq<char>) -> bool {
    match json_parse_result(pending_json) {
        Ok(v) => names_task(v, task_id),
        Err(_) => false,
    }
}

/// Whether the stored confirmation text belongs to the task `task_id`.
pub fn pending_matches_task_id(pending_json: &str, task_id: &str) -> (r: bool)
    ensures
        r == pending_matches(pending_json@, task_id@),
{
    match parse_json(pending_json) {
        Ok(v) => document_names_task(&v, task_id),
        Err(_) => false,
    }
}

/// Whether the row `row` (session id, stored confirmation) holds a
/// confirmation of the task `task_id`.
pub open spec fn row_of_task(row: (String, Option<String>), task_id: Seq<char>) -> bool {
    match row.1 {
        Some(p) => pending_matches(p@, task_id),
        None => false,
    }
}

/// The sessions among `rows` (session id, stored confirmation) whose
/// confirmation belongs to the task `task_id`, in order.
pub open spec fn sessions_of_task(rows: Seq<(String, Option<String>)>, task_id: Seq<char>) -> Seq<Seq<char>>
    decreases rows.len(),
{
    if rows.len() == 0 {
        seq![]
    } else {
        let rest = sessions_of_task(rows.drop_last(), task_id);
        let row = rows.last();
        if row_of_task(row, task_id) {
            rest.push(row.0@)
        } else {
            rest
        }
    }
}

/// A stored confirmation belongs to the task `task_id` exactly when its text
/// reads as a document whose `task_id` member is a string equal to
/// `task_id`; text that does not read as JSON belongs to no task.
pub proof fn stored_confirmation_belongs_to_its_task(pending_json: Seq<char>, task_id: Seq<char>)
    ensures
        pending_matches(pending_json, task_id) <==> (json_parse_result(pending_json) matches Ok(v) && json_at(
            v,
            "task_id"@,
        ) matches JsonValue::Str(t) && t@ == task_id),
{
}

/// The sessions whose pending confirmation is to be cleared for `task_id`.
pub fn sessions_to_clear(rows: &Vec<(String, Option<String>)>, task_id: &str) -> (r: Vec<String>)
    ensures
        crate::text::views(r@) == sessions_of_task(rows@, task_id@),
{
    let mut r: Vec<String> = Vec::new();
    let mut i: usize = 0;
    while i < rows.len()
        invariant
            i <= rows.len(),
            crate::text::views(r@) == sessions_of_task(rows@.take(i as int), task_id@),
        decreases rows.len() - i,
    {
        let ghost before = r@;
        proof {
            assert(rows@.take(i + 1).drop_last() =~= rows@.take(i as int));
            assert(rows@.take(i + 1).last() == rows@[i as int]);
        }
        match &rows[i].1 {
            Some(p) => {
                if pending_matches_task_id(p.as_str(), task_id) {
                    r.push(rows[i].0.clone());
                    proof {
                        assert(crate::text::views(r@) =~= crate::text::views(before).push(rows@[i as int].0@));
                    }
                }
            },
            None => {},
        }
        i = i + 1;
    }
    proof {
        assert(rows@.take(rows.len() as int) =~= rows@);
    }
    r
}

/// The rows after the stored confirmation of every session named in `ids`
/// is set to `NULL`.
pub open spec fn rows_with_cleared(rows: Seq<(String, Option<String>)>, ids: Seq<Seq<char>>) -> Seq<
    (String, Option<String>),
> {
    rows.map_values(
        |row: (String, Option<String>)|
            if ids.contains(row.0@) {
                (row.0, None::<String>)
            } else {
                row
            },
    )
}

/// The rows after the confirmations of the task `task_id` are cleared: each
/// session that `sessions_to_clear` names has its confirmation set to `NULL`.
pub open spec fn rows_after_clear(rows: Seq<(String, Option<String>)>, task_id: Seq<char>) -> Seq<
    (String, Option<String>),
> {
    rows_with_cleared(rows, sessions_of_task(rows, task_id))
}

proof fn lemma_task_row_listed(rows: Seq<(String, Option<String>)>, task_id: Seq<char>, i: int)
    requires
        0 <= i < rows.len(),
        row_of_task(rows[i], task_id),
    ensures
        sessions_of_task(rows, task_id).contains(rows[i].0@),
    decreases rows.len(),
{
    let rest = sessions_of_task(rows.drop_last(), task_id);
    if i == rows.len() - 1 {
        assert(rest.push(rows[i].0@)[rest.len() as int] == rows[i].0@);
    } else {
        assert(rows.drop_last()[i] == rows[i]);
        lemma_task_row_listed(rows.drop_last(), task_id, i);
        let j = choose|j: int| 0 <= j < rest.len() && rest[j] == rows[i].0@;
        if row_of_task(rows.last(), task_id) {
            assert(rest.push(rows.last().0@)[j] == rest[j]);
        }
    }
}

proof fn lemma_no_task_rows(rows: Seq<(String, Option<String>)>, task_id: Seq<char>)
    requires
        forall|i: int| 0 <= i < rows.len() ==> !row_of_task(#[trigger] rows[i], task_id),
    ensures
        sessions_of_task(rows, task_id).len() == 0,
    decreases rows.len(),
{
    if rows.len() > 0 {
        let t = rows.drop_last();
        assert forall|i: int| 0 <= i < t.len() implies !row_of_task(#[trigger] t[i], task_id) by {
            assert(t[i] == rows[i]);
        }
        lemma_no_task_rows(t, task_id);
        assert(!row_of_task(rows[rows.len() - 1], task_id));
    }
}

/// Clearing a task's confirmations leaves none of that task behind: clearing
/// the same task a second time names no session and leaves every row as the
/// first clearing left it.
pub proof fn clearing_twice_changes_nothing(rows: Seq<(String, Option<String>)>, task_id: Seq<char>)
    ensures
        sessions_of_task(rows_after_clear(rows, task_id), task_id).len() == 0,
        rows_after_clear(rows_after_clear(rows, task_id), task_id) == rows_after_clear(rows, task_id),
{
    let ids = sessions_of_task(rows, task_id);
    let c = rows_after_clear(rows, task_id);
    assert forall|i: int| 0 <= i < c.len() implies !row_of_task(#[trigger] c[i], task_id) by {
        if !ids.contains(rows[i].0@) && row_of_task(rows[i], task_id) {
            lemma_task_row_listed(rows, task_id, i);
        }
    }
    lemma_no_task_rows(c, task_id);
    let none: Seq<Seq<char>> = sessions_of_task(c, task_id);
    assert(rows_with_cleared(c, none) =~= c);
}

/// Whether `names` (the columns of a table) holds `column`.
pub fn column_listed(names: &Vec<String>, column: &str) -> (r: bool)
    ensures
        r == exists|i: int| 0 <= i < names@.len() && (#[trigger] names@[i])@ == column@,
{
    let mut i: usize = 0;
    while i < names.len()
        invariant
            i <= names.len(),
            forall|j: int| 0 <= j < i ==> (#[trigger] names@[j])@ != column@,
        decreases names.len() - i,
    {
        if same_text(names[i].as_str(), column) {
            return true;
        }
        i = i + 1;
    }
    false
}

#[verifier::external_type_specification]
#[verifier::external_body]
pub struct ExSystemTime(std::time::SystemTime);

/// `SystemTime::now`: the reading of the system clock. Nothing is stated of
/// it: it is whatever the clock says.
#[verifier::external_body]
fn clock_now() -> std::time::SystemTime {
    std::time::SystemTime::now()
}

/// `SystemTime::duration_since(UNIX_EPOCH)`: the time from the epoch to `t`,
/// `None` for the error it gives when `t` lies before the epoch. Nothing is
/// stated of the duration, which is opaque here.
#[verifier::external_body]
fn since_epoch(t: &std::time::SystemTime) -> Option<std::time::Duration> {
    match t.duration_since(std::time::UNIX_EPOCH) {
        Ok(d) => Some(d),
        Err(_) => None,
    }
}

/// `Duration::as_secs`: the whole seconds of `d`. Nothing is stated of the
/// number, the duration being opaque here.
#[verifier::external_body]
fn whole_seconds(d: &std::time::Duration) -> u64 {
    d.as_secs()
}

/// A count of seconds as the `INTEGER` the tables store (a two's complement
/// reinterpretation, as `as i64` does).
pub fn seconds_as_i64(secs: u64) -> (r: i64)
    ensures
        r == secs as i64,
{
    secs as i64
}

/// The current time in whole seconds since the Unix epoch, 0 when the clock
/// is set before the epoch. It depends on the clock alone, so nothing is
/// promised of the value.
pub fn unix_now() -> i64 {
    let now = clock_now();
    let secs: u64 = match since_epoch(&now) {
        Some(d) => whole_seconds(&d),
        None => 0,
    };
    seconds_as_i64(secs)
}

} // verus!
