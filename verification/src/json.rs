//! JSON documents as plain values, read the way `serde_json` indexes a
//! `Value`; reading a document from text and writing a string literal,
//! which `serde_json` does; and the writing of objects, member by member, in
//! the compact form `serde_json` gives a struct.
use vstd::prelude::*;
use vstd::string::StringExecFns;
use crate::text::same_text;

verus! {

#[verifier::external_type_specification]
#[verifier::external_body]
pub struct ExSerdeJsonValue(serde_json::Value);

/// A JSON document. Numbers keep the text `serde_json` prints for them;
/// objects keep their members in the order `serde_json` holds them.
#[derive(Debug, PartialEq)]
pub enum JsonValue {
    Null,
    Bool(bool),
    Number(String),
    Str(String),
    Array(Vec<JsonValue>),
    Object(Vec<(String, JsonValue)>),
}

/// What `serde_json::from_str::<serde_json::Value>` makes of `text`: the
/// document, or the text of the error it reports.
pub uninterp spec fn json_parse_result(text: Seq<char>) -> Result<JsonValue, Seq<char>>;

/// A digit of a number written in hexadecimal, in lower case (`d < 16`).
pub open spec fn hex_digit(d: int) -> char {
    if d < 10 {
        (d + 0x30) as char
    } else {
        (d - 10 + 0x61) as char
    }
}

/// How `c` is written inside a JSON string literal: `"` and `\` behind a
/// backslash, the controls with a short escape as `\b \t \n \f \r`, the
/// other characters below U+0020 as `\u00` and two lower case hex digits,
/// every other character as it is.
pub open spec fn escaped_char(c: char) -> Seq<char> {
    let u = c as int;
    if c == '"' {
        seq!['\\', '"']
    } else if c == '\\' {
        seq!['\\', '\\']
    } else if u == 0x08 {
        seq!['\\', 'b']
    } else if u == 0x09 {
        seq!['\\', 't']
    } else if u == 0x0a {
        seq!['\\', 'n']
    } else if u == 0x0c {
        seq!['\\', 'f']
    } else if u == 0x0d {
        seq!['\\', 'r']
    } else if u < 0x20 {
        seq!['\\', 'u', '0', '0', hex_digit(u / 16), hex_digit(u % 16)]
    } else {
        seq![c]
    }
}

/// The characters of `s`, each written as `escaped_char` says.
pub open spec fn escaped_text(s: Seq<char>) -> Seq<char>
    decreases s.len(),
{
    if s.len() == 0 {
        Seq::empty()
    } else {
        escaped_text(s.drop_last()) + escaped_char(s.last())
    }
}

/// The JSON string literal of `s`, as `serde_json::to_string` writes it:
/// the escaped text between double quotes.
pub open spec fn json_string_literal(s: Seq<char>) -> Seq<char> {
    seq!['"'] + escaped_text(s) + seq!['"']
}

/// A document or the text of an error, the text taken by its view.
pub open spec fn result_view(r: Result<JsonValue, String>) -> Result<JsonValue, Seq<char>> {
    match r {
        Ok(v) => Ok(v),
        Err(e) => Err(e@),
    }
}

impl JsonValue {
    /// Rebuilds a `serde_json::Value` variant by variant as a `JsonValue`.
    #[verifier::external_body]
    fn from_serde(v: serde_json::Value) -> JsonValue {
        match v {
            serde_json::Value::Null => JsonValue::Null,
            serde_json::Value::Bool(b) => JsonValue::Bool(b),
            serde_json::Value::Number(n) => JsonValue::Number(n.to_string()),
            serde_json::Value::String(s) => JsonValue::Str(s),
            serde_json::Value::Array(a) => JsonValue::Array(a.into_iter().map(JsonValue::from_serde).collect()),
            serde_json::Value::Object(m) => JsonValue::Object(m.into_iter().map(|(k, x)| (k, JsonValue::from_serde(x))).collect()),
        }
    }
}

/// Reads `text` with `serde_json::from_str::<serde_json::Value>`. The result
/// is the name `json_parse_result` applied to the text: the document, or the
/// text (`Display`) of the error `serde_json` reports.
#[verifier::external_body]
pub(crate) fn parse_json(text: &str) -> (r: Result<JsonValue, String>)
    ensures
        match (r, json_parse_result(text@)) {
            (Ok(v), Ok(w)) => v == w,
            (Err(e), Err(m)) => e@ == m,
            _ => false,
        },
{
    match serde_json::from_str::<serde_json::Value>(text) {
        Ok(v) => Ok(JsonValue::from_serde(v)),
        Err(e) => Err(e.to_string()),
    }
}

/// Writes `s` as a JSON string literal with `serde_json::to_string`, which
/// escapes each character of a string by its escape table as `escaped_char`
/// says and cannot fail on a string: the result is `json_string_literal(s)`.
#[verifier::external_body]
pub(crate) fn quote_json(s: &str) -> (r: String)
    ensures
        r@ == json_string_literal(s@),
{
    match serde_json::to_string(s) {
        Ok(t) => t,
        Err(_) => String::new(),
    }
}

/// The member named `key` among `es`, the first one if several are.
pub open spec fn entries_get(es: Seq<(String, JsonValue)>, key: Seq<char>) -> Option<JsonValue>
    decreases es.len(),
{
    if es.len() == 0 {
        None
    } else if es[0].0@ == key {
        Some(es[0].1)
    } else {
        entries_get(es.drop_first(), key)
    }
}

/// The member `key` of `v` when `v` is an object that has one.
pub open spec fn json_get(v: JsonValue, key: Seq<char>) -> Option<JsonValue> {
    match v {
        JsonValue::Object(es) => entries_get(es@, key),
        _ => None,
    }
}

/// `v[key]` as `serde_json` indexes a value: the member, or `null`.
pub open spec fn json_at(v: JsonValue, key: Seq<char>) -> JsonValue {
    match json_get(v, key) {
        Some(x) => x,
        None => JsonValue::Null,
    }
}

/// `v[i]` as `serde_json` indexes a value: the element, or `null`.
pub open spec fn json_nth(v: JsonValue, i: int) -> JsonValue {
    match v {
        JsonValue::Array(xs) => if 0 <= i < xs@.len() {
            xs@[i]
        } else {
            JsonValue::Null
        },
        _ => JsonValue::Null,
    }
}

/// The characters of `v` when it is a string.
pub open spec fn json_str(v: JsonValue) -> Option<Seq<char>> {
    match v {
        JsonValue::Str(s) => Some(s@),
        _ => None,
    }
}

/// The member `e` is named `k` and holds the string `v`.
pub open spec fn str_member(e: (String, JsonValue), k: Seq<char>, v: Seq<char>) -> bool {
    e.0@ == k && json_str(e.1) == Some(v)
}

/// `json_str` of the member `key`, as `v.get(key).and_then(as_str)` reads it.
pub open spec fn json_str_at(v: JsonValue, key: Seq<char>) -> Option<Seq<char>> {
    json_str(json_at(v, key))
}

proof fn lemma_entries_get_skip(es: Seq<(String, JsonValue)>, key: Seq<char>, i: int)
    requires
        0 <= i <= es.len(),
        forall|j: int| 0 <= j < i ==> (#[trigger] es[j]).0@ != key,
    ensures
        entries_get(es, key) == entries_get(es.skip(i), key),
    decreases i,
{
    if i > 0 {
        let t = es.drop_first();
        assert forall|j: int| 0 <= j < i - 1 implies (#[trigger] t[j]).0@ != key by {
            assert(t[j] == es[j + 1]);
        }
        lemma_entries_get_skip(t, key, i - 1);
        assert(t.skip(i - 1) =~= es.skip(i));
    } else {
        assert(es.skip(0) =~= es);
    }
}

impl JsonValue {
    /// The member `key` of an object (`Value::get` with a string key).
    pub fn get(&self, key: &str) -> (r: Option<&JsonValue>)
        ensures
            match r {
                Some(x) => json_get(*self, key@) == Some(*x),
                None => json_get(*self, key@) is None,
            },
    {
        match self {
            JsonValue::Object(es) => {
                let mut i: usize = 0;
                while i < es.len()
                    invariant
                        *self == JsonValue::Object(*es),
                        i <= es.len(),
                        forall|j: int| 0 <= j < i ==> (#[trigger] es@[j]).0@ != key@,
                    decreases es.len() - i,
                {
                    if same_text(es[i].0.as_str(), key) {
                        proof {
                            lemma_entries_get_skip(es@, key@, i as int);
                            assert(es@.skip(i as int)[0] == es@[i as int]);
                        }
                        return Some(&es[i].1);
                    }
                    i = i + 1;
                }
                proof {
                    lemma_entries_get_skip(es@, key@, i as int);
                    assert(es@.skip(i as int).len() == 0);
                }
                None
            },
            _ => None,
        }
    }

    /// `self[key]` as `serde_json` indexes: `None` stands for the `null` it gives
    /// when `self` has no member `key`.
    pub fn at(&self, key: &str) -> (r: Option<&JsonValue>)
        ensures
            match r {
                Some(x) => json_at(*self, key@) == *x,
                None => json_at(*self, key@) == JsonValue::Null,
            },
    {
        self.get(key)
    }

    /// The element `i` of an array.
    pub fn nth(&self, i: usize) -> (r: Option<&JsonValue>)
        ensures
            match r {
                Some(x) => json_nth(*self, i as int) == *x && (*self is Array),
                None => json_nth(*self, i as int) == JsonValue::Null,
            },
    {
        match self {
            JsonValue::Array(xs) => {
                if i < xs.len() {
                    Some(&xs[i])
                } else {
                    None
                }
            },
            _ => None,
        }
    }

    /// The text of a string value (`Value::as_str`).
    pub fn as_str(&self) -> (r: Option<&str>)
        ensures
            match r {
                Some(s) => json_str(*self) == Some(s@),
                None => json_str(*self) is None,
            },
    {
        match self {
            JsonValue::Str(s) => Some(s.as_str()),
            _ => None,
        }
    }

    /// `self[key].as_str()`: the text of the string member `key`.
    pub fn str_at(&self, key: &str) -> (r: Option<&str>)
        ensures
            match r {
                Some(s) => json_str_at(*self, key@) == Some(s@),
                None => json_str_at(*self, key@) is None,
            },
    {
        match self.get(key) {
            Some(x) => x.as_str(),
            None => None,
        }
    }
}

// ── Writing objects ──────────────────────────────────────────────────────────

/// One member `"name":value` of a JSON object, `value` being JSON text.
pub open spec fn member_text(m: (Seq<char>, Seq<char>)) -> Seq<char> {
    json_string_literal(m.0) + ":"@ + m.1
}

/// The members of an object, separated by commas, in the given order.
pub open spec fn members_text(ms: Seq<(Seq<char>, Seq<char>)>) -> Seq<char>
    decreases ms.len(),
{
    if ms.len() == 0 {
        Seq::empty()
    } else if ms.len() == 1 {
        member_text(ms[0])
    } else {
        members_text(ms.drop_last()) + ","@ + member_text(ms.last())
    }
}

/// The compact JSON text of an object with the members `ms`, in the shape
/// `serde_json::to_string` gives a struct: no spaces, fields in order.
pub open spec fn object_text(ms: Seq<(Seq<char>, Seq<char>)>) -> Seq<char> {
    "{"@ + members_text(ms) + "}"@
}

/// The views of a list of members given as a field name and its JSON text.
pub open spec fn member_views(fs: Seq<(&str, String)>) -> Seq<(Seq<char>, Seq<char>)> {
    fs.map_values(|f: (&str, String)| (f.0@, f.1@))
}

/// Writes the object with the members `fs`.
pub fn encode_object(fs: &Vec<(&str, String)>) -> (r: String)
    ensures
        r@ == object_text(member_views(fs@)),
{
    let mut out = String::new();
    out.append("{");
    let mut i: usize = 0;
    while i < fs.len()
        invariant
            i <= fs.len(),
            out@ == "{"@ + members_text(member_views(fs@).take(i as int)),
        decreases fs.len() - i,
    {
        let ghost before = out@;
        let ghost ms = member_views(fs@);
        if i > 0 {
            out.append(",");
        }
        let key = quote_json(fs[i].0);
        out.append(key.as_str());
        out.append(":");
        out.append(fs[i].1.as_str());
        proof {
            let t = ms.take(i + 1);
            assert(t.drop_last() =~= ms.take(i as int));
            assert(t.last() == ms[i as int]);
            assert(member_text(ms[i as int]) =~= key@ + ":"@ + fs@[i as int].1@);
            if i > 0 {
                assert(members_text(t) == members_text(ms.take(i as int)) + ","@ + member_text(ms[i as int]));
                assert(out@ =~= before + ","@ + key@ + ":"@ + fs@[i as int].1@);
            } else {
                assert(ms.take(0) =~= Seq::<(Seq<char>, Seq<char>)>::empty());
                assert(members_text(t) == member_text(ms[0]));
                assert(out@ =~= before + key@ + ":"@ + fs@[i as int].1@);
            }
        }
        i = i + 1;
    }
    out.append("}");
    proof {
        assert(member_views(fs@).take(fs.len() as int) =~= member_views(fs@));
    }
    out
}

/// The JSON text of an optional string: its literal, or `null`.
pub open spec fn opt_string_text(s: Option<Seq<char>>) -> Seq<char> {
    match s {
        Some(t) => json_string_literal(t),
        None => "null"@,
    }
}

} // verus!
