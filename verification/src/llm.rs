//! The chat model side: the messages of a conversation and the reading of
//! the model's streamed answer, which ends either as text or as a call of
//! the `delegate_to_daemon` tool.
use vstd::prelude::*;
use vstd::string::StringExecFns;
use crate::json::{
    JsonValue, json_at, json_nth, json_parse_result, json_str, json_str_at, parse_json, str_member,
};
use crate::text::{
    chars_of, has_prefix, opt_chars, lines_of, same_text, split_lines, starts_with, string_of, trim, trim_str,
    views,
};

verus! {

/// One message of a conversation.
#[derive(Debug, Clone, PartialEq)]
pub struct ChatMessage {
    pub role: String,
    pub content: Option<String>,
    pub tool_calls: Option<Vec<ToolCall>>,
    pub tool_call_id: Option<String>,
}

/// A tool call the model made.
#[derive(Debug, Clone, PartialEq)]
pub struct ToolCall {
    pub id: String,
    pub call_type: String,
    pub function: ToolCallFunction,
}

/// The function a tool call names and its arguments (JSON text).
#[derive(Debug, Clone, PartialEq)]
pub struct ToolCallFunction {
    pub name: String,
    pub arguments: String,
}

/// How a streamed answer ended.
#[derive(Debug, Clone, PartialEq)]
pub enum LlmStreamResult {
    /// The model called a tool, which the daemon is to carry out.
    ToolCall { id: String, name: String, arguments: String },
    /// The model answered in text.
    TextDone { full_text: String },
}

impl ChatMessage {
    /// A message from the user.
    pub fn user(content: &str) -> (m: ChatMessage)
        ensures
            m.role@ == "user"@,
            opt_chars(m.content) == Some(content@),
            m.tool_calls is None,
            m.tool_call_id is None,
    {
        ChatMessage { role: "user".to_string(), content: Some(content.to_string()), tool_calls: None, tool_call_id: None }
    }

    /// A plain text answer of the assistant.
    pub fn assistant_text(content: &str) -> (m: ChatMessage)
        ensures
            m.role@ == "assistant"@,
            opt_chars(m.content) == Some(content@),
            m.tool_calls is None,
            m.tool_call_id is None,
    {
        ChatMessage {
            role: "assistant".to_string(),
            content: Some(content.to_string()),
            tool_calls: None,
            tool_call_id: None,
        }
    }

    /// The result of the tool call `tool_call_id`, handed back to the model.
    pub fn tool_result(tool_call_id: &str, content: &str) -> (m: ChatMessage)
        ensures
            m.role@ == "tool"@,
            opt_chars(m.content) == Some(content@),
            m.tool_calls is None,
            opt_chars(m.tool_call_id) == Some(tool_call_id@),
    {
        ChatMessage {
            role: "tool".to_string(),
            content: Some(content.to_string()),
            tool_calls: None,
            tool_call_id: Some(tool_call_id.to_string()),
        }
    }
}


// ── Reading the streamed answer ──────────────────────────────────────────────

/// What has been read of a streamed answer so far.
pub struct StreamView {
    pub full_text: Seq<char>,
    pub tool_call_id: Seq<char>,
    pub tool_call_name: Seq<char>,
    pub tool_call_args: Seq<char>,
    pub is_tool_call: bool,
}

/// The reader of a streamed chat completion (server-sent events, one JSON
/// chunk per `data: ` line): text deltas are gathered and handed on as
/// tokens, tool call deltas are gathered into one call.
pub struct StreamAccumulator {
    pub full_text: String,
    pub tool_call_id: String,
    pub tool_call_name: String,
    pub tool_call_args: String,
    pub is_tool_call: bool,
}

impl View for StreamAccumulator {
    type V = StreamView;

    open spec fn view(&self) -> StreamView {
        StreamView {
            full_text: self.full_text@,
            tool_call_id: self.tool_call_id@,
            tool_call_name: self.tool_call_name@,
            tool_call_args: self.tool_call_args@,
            is_tool_call: self.is_tool_call,
        }
    }
}

/// One tool call delta taken into the state: a non-empty `id` or
/// `function.name` replaces the one held, `function.arguments` is appended.
pub open spec fn apply_tool_call(s: StreamView, tc: JsonValue) -> StreamView {
    let s1 = match json_str(json_at(tc, "id"@)) {
        Some(id) => if id.len() > 0 {
            StreamView { tool_call_id: id, ..s }
        } else {
            s
        },
        None => s,
    };
    let s2 = match json_str(json_at(json_at(tc, "function"@), "name"@)) {
        Some(n) => if n.len() > 0 {
            StreamView { tool_call_name: n, ..s1 }
        } else {
            s1
        },
        None => s1,
    };
    match json_str(json_at(json_at(tc, "function"@), "arguments"@)) {
        Some(a) => StreamView { tool_call_args: s2.tool_call_args + a, ..s2 },
        None => s2,
    }
}

/// The tool call deltas `tcs` taken into the state in order.
pub open spec fn apply_tool_calls(s: StreamView, tcs: Seq<JsonValue>) -> StreamView
    decreases tcs.len(),
{
    if tcs.len() == 0 {
        s
    } else {
        apply_tool_call(apply_tool_calls(s, tcs.drop_last()), tcs.last())
    }
}

/// `chunk["choices"][0]["delta"]`.
pub open spec fn stream_delta(chunk: JsonValue) -> JsonValue {
    json_at(json_nth(json_at(chunk, "choices"@), 0), "delta"@)
}

/// The JSON text of an event line: what follows `data: `, or the whole line.
pub open spec fn line_data(line: Seq<char>) -> Seq<char> {
    if has_prefix(line, "data: "@) {
        line.skip("data: "@.len() as int)
    } else {
        line
    }
}

/// One JSON chunk of the stream read into the state: the new state and the
/// token to hand on, if any. A delta with `tool_calls` marks the answer a
/// tool call and takes the calls in; otherwise non-empty `content` is text.
pub open spec fn stream_chunk(s: StreamView, chunk: JsonValue) -> (StreamView, Option<Seq<char>>) {
    let delta = stream_delta(chunk);
    match json_at(delta, "tool_calls"@) {
        JsonValue::Array(tcs) => (apply_tool_calls(StreamView { is_tool_call: true, ..s }, tcs@), None),
        _ => match json_str(json_at(delta, "content"@)) {
            Some(c) => if c.len() > 0 {
                (StreamView { full_text: s.full_text + c, ..s }, Some(c))
            } else {
                (s, None)
            },
            None => (s, None),
        },
    }
}

/// One line of the stream read into the state: the new state and the token
/// to hand on, if any. Blank lines, the `data: [DONE]` marker and lines that
/// are not JSON change nothing; a JSON chunk is read as `stream_chunk` says.
pub open spec fn stream_line(s: StreamView, raw: Seq<char>) -> (StreamView, Option<Seq<char>>) {
    let line = trim(raw);
    if line.len() == 0 || line == "data: [DONE]"@ {
        (s, None)
    } else {
        match json_parse_result(line_data(line)) {
            Err(_) => (s, None),
            Ok(chunk) => stream_chunk(s, chunk),
        }
    }
}

/// The lines `ls` read into the state in order: the new state and the
/// tokens handed on.
pub open spec fn stream_lines(s: StreamView, ls: Seq<Seq<char>>) -> (StreamView, Seq<Seq<char>>)
    decreases ls.len(),
{
    if ls.len() == 0 {
        (s, seq![])
    } else {
        let (s1, toks) = stream_lines(s, ls.drop_last());
        let (s2, t) = stream_line(s1, ls.last());
        (
            s2,
            match t {
                Some(x) => toks.push(x),
                None => toks,
            },
        )
    }
}

/// What `String::from_utf8_lossy` makes of `bytes`.
pub uninterp spec fn utf8_lossy_text(bytes: Seq<u8>) -> Seq<char>;

/// Decodes bytes with `String::from_utf8_lossy`: the name `utf8_lossy_text`
/// applied to them; valid UTF-8 comes out as its decoding (invalid sequences
/// become U+FFFD, which is not stated here).
#[verifier::external_body]
fn decode_utf8_lossy(bytes: &[u8]) -> (r: String)
    ensures
        r@ == utf8_lossy_text(bytes@),
        vstd::utf8::valid_utf8(bytes@) ==> r@ == vstd::utf8::decode_utf8(bytes@),
{
    String::from_utf8_lossy(bytes).into_owned()
}

/// The tokens of an answer: a concatenation of sequences.
pub open spec fn concat(ts: Seq<Seq<char>>) -> Seq<char>
    decreases ts.len(),
{
    if ts.len() == 0 {
        seq![]
    } else {
        concat(ts.drop_last()) + ts.last()
    }
}

/// How a stream in state `s` ends.
pub open spec fn stream_result_is(s: StreamView, r: LlmStreamResult) -> bool {
    if s.is_tool_call && s.tool_call_name.len() > 0 {
        r matches LlmStreamResult::ToolCall { id, name, arguments } && id@ == s.tool_call_id
            && name@ == s.tool_call_name && arguments@ == s.tool_call_args
    } else {
        r matches LlmStreamResult::TextDone { full_text } && full_text@ == s.full_text
    }
}

impl StreamAccumulator {
    /// Nothing read yet.
    pub fn new() -> (a: StreamAccumulator)
        ensures
            a@.full_text.len() == 0,
            a@.tool_call_id.len() == 0,
            a@.tool_call_name.len() == 0,
            a@.tool_call_args.len() == 0,
            !a@.is_tool_call,
    {
        StreamAccumulator {
            full_text: String::new(),
            tool_call_id: String::new(),
            tool_call_name: String::new(),
            tool_call_args: String::new(),
            is_tool_call: false,
        }
    }

    fn take_tool_call(&mut self, tc: &JsonValue)
        ensures
            final(self)@ == apply_tool_call(old(self)@, *tc),
    {
        match tc.at("id") {
            Some(x) => match x.as_str() {
                Some(id) => if !id.is_empty() {
                    self.tool_call_id = id.to_string();
                },
                None => {},
            },
            None => {},
        }
        let f = tc.at("function");
        match f {
            Some(fv) => {
                match fv.at("name") {
                    Some(x) => match x.as_str() {
                        Some(n) => if !n.is_empty() {
                            self.tool_call_name = n.to_string();
                        },
                        None => {},
                    },
                    None => {},
                }
                match fv.at("arguments") {
                    Some(x) => match x.as_str() {
                        Some(a) => {
                            self.tool_call_args.append(a);
                        },
                        None => {},
                    },
                    None => {},
                }
            },
            None => {},
        }
    }

    /// Reads one line of the stream; returns the token to hand on, if any.
    pub fn feed_line(&mut self, raw: &str) -> (token: Option<String>)
        ensures
            (final(self)@, opt_chars(token)) == stream_line(old(self)@, raw@),
    {
        let line = trim_str(raw);
        if line.as_str().is_empty() || same_text(line.as_str(), "data: [DONE]") {
            return None;
        }
        let cs = chars_of(line.as_str());
        let prefix = chars_of("data: ");
        let data = if starts_with(&cs, &prefix) {
            let d = string_of(&cs, prefix.len(), cs.len());
            assert(d@ =~= line@.skip(prefix@.len() as int));
            d
        } else {
            line
        };
        match parse_json(data.as_str()) {
            Ok(chunk) => self.feed_chunk_value(&chunk),
            Err(_) => None,
        }
    }

    /// Reads one JSON chunk of the stream; returns the token to hand on, if any.
    pub fn feed_chunk_value(&mut self, chunk: &JsonValue) -> (token: Option<String>)
        ensures
            (final(self)@, opt_chars(token)) == stream_chunk(old(self)@, *chunk),
    {
        let delta = match chunk.at("choices") {
            Some(c) => match c.nth(0) {
                Some(x) => x.at("delta"),
                None => None,
            },
            None => None,
        };
        let d = match delta {
            Some(d) => d,
            None => {
                return None;
            },
        };
        match d.at("tool_calls") {
            Some(JsonValue::Array(tcs)) => {
                self.is_tool_call = true;
                let ghost s0 = self@;
                let mut i: usize = 0;
                while i < tcs.len()
                    invariant
                        i <= tcs.len(),
                        self@ == apply_tool_calls(s0, tcs@.take(i as int)),
                    decreases tcs.len() - i,
                {
                    self.take_tool_call(&tcs[i]);
                    proof {
                        assert(tcs@.take(i + 1).drop_last() =~= tcs@.take(i as int));
                    }
                    i = i + 1;
                }
                proof {
                    assert(tcs@.take(tcs.len() as int) =~= tcs@);
                }
                return None;
            },
            _ => {},
        }
        match d.at("content") {
            Some(c) => match c.as_str() {
                Some(text) => {
                    if !text.is_empty() {
                        self.full_text.append(text);
                        return Some(text.to_string());
                    }
                    None
                },
                None => None,
            },
            None => None,
        }
    }

    /// Reads one chunk of the response body: decodes it, cuts it into lines
    /// and reads them in order; returns the tokens to hand on.
    pub fn feed_chunk(&mut self, bytes: &[u8]) -> (tokens: Vec<String>)
        ensures
            (final(self)@, views(tokens@)) == stream_lines(old(self)@, split_lines(utf8_lossy_text(bytes@))),
    {
        let text = decode_utf8_lossy(bytes);
        let cs = chars_of(text.as_str());
        let lines = lines_of(&cs);
        let ghost ls = split_lines(utf8_lossy_text(bytes@));
        let ghost s0 = self@;
        let mut tokens: Vec<String> = Vec::new();
        let mut i: usize = 0;
        while i < lines.len()
            invariant
                i <= lines.len(),
                views(lines@) == ls,
                (self@, views(tokens@)) == stream_lines(s0, ls.take(i as int)),
            decreases lines.len() - i,
        {
            let t = self.feed_line(lines[i].as_str());
            proof {
                assert(ls.take(i + 1).drop_last() =~= ls.take(i as int));
                assert(ls.take(i + 1).last() == lines@[i as int]@);
            }
            let ghost before = tokens@;
            match t {
                Some(x) => {
                    tokens.push(x);
                    proof {
                        assert(views(tokens@) =~= views(before).push(x@));
                    }
                },
                None => {},
            }
            i = i + 1;
        }
        proof {
            assert(ls.take(lines.len() as int) =~= ls);
        }
        tokens
    }

    /// How the answer ended: a tool call when tool call deltas came and named
    /// a function, the gathered text otherwise.
    pub fn finish(self) -> (r: LlmStreamResult)
        ensures
            stream_result_is(self@, r),
    {
        if self.is_tool_call && !self.tool_call_name.as_str().is_empty() {
            LlmStreamResult::ToolCall {
                id: self.tool_call_id,
                name: self.tool_call_name,
                arguments: self.tool_call_args,
            }
        } else {
            LlmStreamResult::TextDone { full_text: self.full_text }
        }
    }
}


proof fn lemma_tool_calls_keep_text(s: StreamView, tcs: Seq<JsonValue>)
    ensures
        apply_tool_calls(s, tcs).full_text == s.full_text,
        apply_tool_calls(s, tcs).is_tool_call == s.is_tool_call,
    decreases tcs.len(),
{
    if tcs.len() > 0 {
        lemma_tool_calls_keep_text(s, tcs.drop_last());
    }
}

/// Reading one line appends exactly the token it hands on to the gathered
/// text (nothing when it hands none on), hands on no empty token, and never
/// turns a tool call answer back into a text answer.
pub proof fn stream_line_appends_token(s: StreamView, raw: Seq<char>)
    ensures
        ({
            let (s2, t) = stream_line(s, raw);
            &&& s2.full_text == s.full_text + match t {
                Some(x) => x,
                None => Seq::<char>::empty(),
            }
            &&& t matches Some(x) ==> x.len() > 0
            &&& s.is_tool_call ==> s2.is_tool_call
        }),
{
    let line = trim(raw);
    if !(line.len() == 0 || line == "data: [DONE]"@) {
        match json_parse_result(line_data(line)) {
            Ok(chunk) => {
                let delta = stream_delta(chunk);
                match json_at(delta, "tool_calls"@) {
                    JsonValue::Array(tcs) => {
                        lemma_tool_calls_keep_text(StreamView { is_tool_call: true, ..s }, tcs@);
                    },
                    _ => {},
                }
            },
            Err(_) => {},
        }
    }
    let (s2, t) = stream_line(s, raw);
    if t is None {
        assert(s2.full_text =~= s.full_text + Seq::<char>::empty());
    }
}

/// Whatever lines a stream is fed, the text it has gathered is the text it
/// started with followed by the tokens it handed on, in order; and once the
/// answer is a tool call it stays one.
pub proof fn stream_text_is_its_tokens(s: StreamView, ls: Seq<Seq<char>>)
    ensures
        stream_lines(s, ls).0.full_text == s.full_text + concat(stream_lines(s, ls).1),
        s.is_tool_call ==> stream_lines(s, ls).0.is_tool_call,
    decreases ls.len(),
{
    if ls.len() == 0 {
        assert(s.full_text + concat(seq![]) =~= s.full_text);
    } else {
        stream_text_is_its_tokens(s, ls.drop_last());
        let (s1, toks) = stream_lines(s, ls.drop_last());
        stream_line_appends_token(s1, ls.last());
        let (s2, t) = stream_line(s1, ls.last());
        match t {
            Some(x) => {
                assert(toks.push(x).drop_last() =~= toks);
                assert(s.full_text + concat(toks.push(x)) =~= s.full_text + concat(toks) + x);
            },
            None => {},
        }
    }
}


/// Reading lines in two batches is reading them all at once: the state
/// after both batches is the state after the whole, and the tokens handed on
/// are those of the first batch followed by those of the second.
pub proof fn stream_lines_compose(s: StreamView, a: Seq<Seq<char>>, b: Seq<Seq<char>>)
    ensures
        ({
            let (s1, t1) = stream_lines(s, a);
            let (s2, t2) = stream_lines(s1, b);
            stream_lines(s, a + b) == (s2, t1 + t2)
        }),
    decreases b.len(),
{
    if b.len() == 0 {
        assert(a + b =~= a);
        let (s1, t1) = stream_lines(s, a);
        assert(t1 + seq![] =~= t1);
    } else {
        stream_lines_compose(s, a, b.drop_last());
        assert((a + b).drop_last() =~= a + b.drop_last());
        assert((a + b).last() == b.last());
        let (s1, t1) = stream_lines(s, a);
        let (sm, tm) = stream_lines(s1, b.drop_last());
        let (s3, t) = stream_line(sm, b.last());
        match t {
            Some(x) => {
                assert((t1 + tm).push(x) =~= t1 + tm.push(x));
            },
            None => {},
        }
    }
}

/// A chunk whose delta holds no `tool_calls` array hands on its `content`
/// exactly as it came when that is a non-empty string, and the gathered
/// text grows by exactly that string; any other chunk of that kind hands
/// nothing on and changes nothing.
pub proof fn text_chunk_hands_on_its_content(s: StreamView, chunk: JsonValue)
    requires
        !(json_at(json_at(json_nth(json_at(chunk, "choices"@), 0), "delta"@), "tool_calls"@) is Array),
    ensures
        ({
            let delta = json_at(json_nth(json_at(chunk, "choices"@), 0), "delta"@);
            let (s2, t) = stream_chunk(s, chunk);
            match json_at(delta, "content"@) {
                JsonValue::Str(c) => if c@.len() > 0 {
                    &&& t == Some(c@)
                    &&& s2.full_text == s.full_text + c@
                    &&& s2.tool_call_id == s.tool_call_id
                    &&& s2.tool_call_name == s.tool_call_name
                    &&& s2.tool_call_args == s.tool_call_args
                    &&& s2.is_tool_call == s.is_tool_call
                } else {
                    t is None && s2 == s
                },
                _ => t is None && s2 == s,
            }
        }),
{
}

/// A chunk whose delta holds a `tool_calls` array hands no token on, leaves
/// the gathered text as it was and marks the answer a tool call.
pub proof fn tool_call_chunk_hands_on_nothing(s: StreamView, chunk: JsonValue)
    requires
        json_at(json_at(json_nth(json_at(chunk, "choices"@), 0), "delta"@), "tool_calls"@) is Array,
    ensures
        stream_chunk(s, chunk).1 is None,
        stream_chunk(s, chunk).0.full_text == s.full_text,
        stream_chunk(s, chunk).0.is_tool_call,
{
    let delta = stream_delta(chunk);
    match json_at(delta, "tool_calls"@) {
        JsonValue::Array(tcs) => {
            lemma_tool_calls_keep_text(StreamView { is_tool_call: true, ..s }, tcs@);
        },
        _ => {},
    }
}

/// One tool call delta: a non-empty string `id` or `function.name` replaces
/// the one held (anything else keeps it), a string `function.arguments` is
/// appended to the arguments held; the text and the tool call mark stay.
pub proof fn tool_call_delta_effect(s: StreamView, tc: JsonValue)
    ensures
        ({
            let s2 = apply_tool_call(s, tc);
            let f = json_at(tc, "function"@);
            &&& s2.tool_call_id == match json_at(tc, "id"@) {
                JsonValue::Str(id) => if id@.len() > 0 {
                    id@
                } else {
                    s.tool_call_id
                },
                _ => s.tool_call_id,
            }
            &&& s2.tool_call_name == match json_at(f, "name"@) {
                JsonValue::Str(n) => if n@.len() > 0 {
                    n@
                } else {
                    s.tool_call_name
                },
                _ => s.tool_call_name,
            }
            &&& s2.tool_call_args == match json_at(f, "arguments"@) {
                JsonValue::Str(a) => s.tool_call_args + a@,
                _ => s.tool_call_args,
            }
            &&& s2.full_text == s.full_text
            &&& s2.is_tool_call == s.is_tool_call
        }),
{
}

/// The tool call deltas of a chunk are taken in the order they come: taking
/// two runs of them is taking the first, then the second, and taking one is
/// `tool_call_delta_effect`'s step.
pub proof fn tool_call_deltas_in_order(s: StreamView, a: Seq<JsonValue>, b: Seq<JsonValue>)
    ensures
        apply_tool_calls(s, a + b) == apply_tool_calls(apply_tool_calls(s, a), b),
        a.len() == 1 ==> apply_tool_calls(s, a) == apply_tool_call(s, a[0]),
    decreases b.len(),
{
    if a.len() == 1 {
        assert(a.drop_last() =~= Seq::<JsonValue>::empty());
        assert(apply_tool_calls(s, a.drop_last()) == s);
    }
    if b.len() == 0 {
        assert(a + b =~= a);
    } else {
        tool_call_deltas_in_order(s, a, b.drop_last());
        assert((a + b).drop_last() =~= a + b.drop_last());
        assert((a + b).last() == b.last());
    }
}

// ── The tool the model may call ──────────────────────────────────────────────

/// The number of members of an object or elements of an array.
pub open spec fn json_len(v: JsonValue) -> nat {
    match v {
        JsonValue::Object(es) => es@.len(),
        JsonValue::Array(xs) => xs@.len(),
        _ => 0,
    }
}

/// `v` is an array of the strings `ss`.
pub open spec fn str_array(v: JsonValue, ss: Seq<Seq<char>>) -> bool {
    &&& v is Array
    &&& json_len(v) == ss.len()
    &&& forall|i: int| 0 <= i < ss.len() ==> json_str(#[trigger] json_nth(v, i)) == Some(ss[i])
}

/// The description the model reads of `delegate_to_daemon`.
pub open spec fn delegate_description() -> Seq<char> {
    "Delegate a task to the ARIA system daemon for execution. Use this when the user needs to interact with the local file system (type: 'fs'), search the web (type: 'web'), run OS commands (type: 'os'), or other system-level operations. Always infer the correct type from context."@
}

/// `v` is an object whose members are named `ks`, in that order.
pub open spec fn keys_are(v: JsonValue, ks: Seq<Seq<char>>) -> bool {
    &&& v matches JsonValue::Object(es)
    &&& es@.len() == ks.len()
    &&& forall|i: int| 0 <= i < ks.len() ==> (#[trigger] es@[i]).0@ == ks[i]
}

/// The shape of the `delegate_to_daemon` tool definition: a function tool
/// with two required string parameters, `task` and `type` (one of `fs`,
/// `web`, `os`), the members of every object given in key order.
pub open spec fn is_delegate_tool(v: JsonValue) -> bool {
    let f = json_at(v, "function"@);
    let p = json_at(f, "parameters"@);
    let props = json_at(p, "properties"@);
    let task = json_at(props, "task"@);
    let ty = json_at(props, "type"@);
    &&& keys_are(v, seq!["function"@, "type"@])
    &&& json_str_at(v, "type"@) == Some("function"@)
    &&& keys_are(f, seq!["description"@, "name"@, "parameters"@])
    &&& json_str_at(f, "name"@) == Some("delegate_to_daemon"@)
    &&& json_str_at(f, "description"@) == Some(delegate_description())
    &&& keys_are(p, seq!["properties"@, "required"@, "type"@])
    &&& json_str_at(p, "type"@) == Some("object"@)
    &&& str_array(json_at(p, "required"@), seq!["task"@, "type"@])
    &&& keys_are(props, seq!["task"@, "type"@])
    &&& keys_are(task, seq!["description"@, "type"@])
    &&& json_str_at(task, "type"@) == Some("string"@)
    &&& json_str_at(task, "description"@) == Some("A clear, detailed description of the task to execute."@)
    &&& keys_are(ty, seq!["description"@, "enum"@, "type"@])
    &&& json_str_at(ty, "type"@) == Some("string"@)
    &&& str_array(json_at(ty, "enum"@), seq!["fs"@, "web"@, "os"@])
    &&& json_str_at(ty, "description"@) == Some(
        "The skill category: 'fs' for file system, 'web' for web search/browse, 'os' for OS-level commands."@,
    )
}

fn jstr(s: &str) -> (r: JsonValue)
    ensures
        r matches JsonValue::Str(t) && t@ == s@,
{
    JsonValue::Str(s.to_string())
}

fn member(k: &str, v: JsonValue) -> (r: (String, JsonValue))
    ensures
        r.0@ == k@,
        r.1 == v,
{
    (k.to_string(), v)
}

/// The definition of the one tool the chat model may call, which hands a
/// task to the daemon.
pub fn delegate_tool_definition() -> (r: JsonValue)
    ensures
        is_delegate_tool(r),
{
    proof {
        reveal_strlit("description");
        reveal_strlit("type");
        reveal_strlit("enum");
        reveal_strlit("task");
        reveal_strlit("properties");
        reveal_strlit("required");
        reveal_strlit("function");
        reveal_strlit("name");
        reveal_strlit("parameters");
        reveal_with_fuel(crate::json::entries_get, 4);
        assert("description"@.len() == 11);
        assert("type"@.len() == 4 && "type"@[0] == 't' && "type"@[1] == 'y');
        assert("enum"@.len() == 4 && "enum"@[0] == 'e');
        assert("task"@.len() == 4 && "task"@[1] == 'a');
        assert("name"@.len() == 4);
        assert("properties"@.len() == 10);
        assert("required"@.len() == 8);
        assert("function"@.len() == 8);
        assert("parameters"@.len() == 10);
    }
    let task_es = vec![
        member("description", jstr("A clear, detailed description of the task to execute.")),
        member("type", jstr("string")),
    ];
    let task = JsonValue::Object(task_es);
    assert(json_str_at(task, "type"@) == Some("string"@));
    assert(json_str_at(task, "description"@) == Some("A clear, detailed description of the task to execute."@));
    let choices = JsonValue::Array(vec![jstr("fs"), jstr("web"), jstr("os")]);
    assert(str_array(choices, seq!["fs"@, "web"@, "os"@]));
    let ty = JsonValue::Object(
        vec![
            member(
                "description",
                jstr(
                    "The skill category: 'fs' for file system, 'web' for web search/browse, 'os' for OS-level commands.",
                ),
            ),
            member("enum", choices),
            member("type", jstr("string")),
        ],
    );
    assert(json_str_at(ty, "type"@) == Some("string"@));
    assert(json_at(ty, "enum"@) == choices);
    let ghost task_g = task;
    let ghost ty_g = ty;
    let props = JsonValue::Object(vec![member("task", task), member("type", ty)]);
    assert(json_at(props, "task"@) == task_g);
    assert(json_at(props, "type"@) == ty_g);
    let required = JsonValue::Array(vec![jstr("task"), jstr("type")]);
    assert(str_array(required, seq!["task"@, "type"@]));
    let ghost props_g = props;
    let ghost required_g = required;
    let params = JsonValue::Object(
        vec![member("properties", props), member("required", required), member("type", jstr("object"))],
    );
    assert(json_at(params, "properties"@) == props_g);
    assert(json_at(params, "required"@) == required_g);
    assert(json_str_at(params, "type"@) == Some("object"@));
    let ghost params_g = params;
    let f = JsonValue::Object(
        vec![
            member(
                "description",
                jstr(
                    "Delegate a task to the ARIA system daemon for execution. Use this when the user needs to interact with the local file system (type: 'fs'), search the web (type: 'web'), run OS commands (type: 'os'), or other system-level operations. Always infer the correct type from context.",
                ),
            ),
            member("name", jstr("delegate_to_daemon")),
            member("parameters", params),
        ],
    );
    assert(json_at(f, "parameters"@) == params_g);
    assert(json_str_at(f, "name"@) == Some("delegate_to_daemon"@));
    let ghost f_g = f;
    let r = JsonValue::Object(vec![member("function", f), member("type", jstr("function"))]);
    assert(json_at(r, "function"@) == f_g);
    assert(json_str_at(r, "type"@) == Some("function"@));
    r
}


// ── The request ──────────────────────────────────────────────────────────────

/// `v` is the JSON of the tool call `tc`, members in key order as a
/// `serde_json` map holds them:
/// `{"function":{"arguments":…,"name":…},"id":…,"type":…}`.
pub open spec fn tool_call_wire_is(tc: ToolCall, v: JsonValue) -> bool {
    &&& v matches JsonValue::Object(es)
    &&& es@.len() == 3
    &&& es@[0].0@ == "function"@
    &&& es@[0].1 matches JsonValue::Object(fs)
    &&& fs@.len() == 2
    &&& str_member(fs@[0], "arguments"@, tc.function.arguments@)
    &&& str_member(fs@[1], "name"@, tc.function.name@)
    &&& str_member(es@[1], "id"@, tc.id@)
    &&& str_member(es@[2], "type"@, tc.call_type@)
}

/// `v` is the JSON of the message `m`, members in key order as a
/// `serde_json` map holds them: `content` (`null` when there is none),
/// `role`, then `tool_call_id` and `tool_calls` only when present.
pub open spec fn message_wire_is(m: ChatMessage, v: JsonValue) -> bool {
    let n = 2 + (if m.tool_call_id is Some { 1int } else { 0int });
    &&& v matches JsonValue::Object(es)
    &&& es@.len() == n + (if m.tool_calls is Some { 1int } else { 0int })
    &&& es@[0].0@ == "content"@
    &&& match m.content {
        Some(c) => json_str(es@[0].1) == Some(c@),
        None => es@[0].1 == JsonValue::Null,
    }
    &&& str_member(es@[1], "role"@, m.role@)
    &&& match m.tool_call_id {
        Some(id) => str_member(es@[2], "tool_call_id"@, id@),
        None => true,
    }
    &&& match m.tool_calls {
        Some(tcs) => es@[n].0@ == "tool_calls"@ && (es@[n].1 matches JsonValue::Array(xs) && xs@.len()
            == tcs@.len() && forall|i: int| 0 <= i < tcs@.len() ==> tool_call_wire_is(tcs@[i], #[trigger] xs@[i])),
        None => true,
    }
}

impl ToolCall {
    /// The JSON the chat endpoint reads for this tool call.
    pub fn to_wire(self) -> (r: JsonValue)
        ensures
            tool_call_wire_is(self, r),
    {
        let f = JsonValue::Object(
            vec![
                (("arguments".to_string(), JsonValue::Str(self.function.arguments))),
                (("name".to_string(), JsonValue::Str(self.function.name))),
            ],
        );
        JsonValue::Object(
            vec![
                ("function".to_string(), f),
                ("id".to_string(), JsonValue::Str(self.id)),
                ("type".to_string(), JsonValue::Str(self.call_type)),
            ],
        )
    }
}

impl ChatMessage {
    /// The JSON the chat endpoint reads for this message.
    pub fn to_wire(self) -> (r: JsonValue)
        ensures
            message_wire_is(self, r),
    {
        let content = match self.content {
            Some(c) => JsonValue::Str(c),
            None => JsonValue::Null,
        };
        let mut es = vec![("content".to_string(), content), ("role".to_string(), JsonValue::Str(self.role))];
        match self.tool_call_id {
            Some(id) => {
                es.push(("tool_call_id".to_string(), JsonValue::Str(id)));
            },
            None => {},
        }
        match self.tool_calls {
            Some(tcs) => {
                let ghost tcs0 = tcs@;
                let mut xs: Vec<JsonValue> = Vec::new();
                broadcast use vstd::std_specs::vec::axiom_spec_into_iter;
                for tc in it: tcs
                    invariant
                        it.seq() == tcs0,
                        xs@.len() == it.index(),
                        forall|i: int| 0 <= i < it.index() ==> tool_call_wire_is(tcs0[i], #[trigger] xs@[i]),
                {
                    let ghost i = it.index();
                    let x = tc.to_wire();
                    xs.push(x);
                    assert(xs@[i as int] == x);
                }
                es.push(("tool_calls".to_string(), JsonValue::Array(xs)));
            },
            None => {},
        }
        JsonValue::Object(es)
    }
}

/// `v` is the body of a streamed chat completion request for `ms`, with its
/// members in key order: `messages`, `model`, `stream` (true) and `tools`
/// (the delegation tool alone).
pub open spec fn chat_body_is(ms: Seq<ChatMessage>, model: Seq<char>, v: JsonValue) -> bool {
    &&& v matches JsonValue::Object(es)
    &&& es@.len() == 4
    &&& es@[0].0@ == "messages"@
    &&& es@[0].1 matches JsonValue::Array(xs)
    &&& xs@.len() == ms.len()
    &&& forall|i: int| 0 <= i < ms.len() ==> message_wire_is(ms[i], #[trigger] xs@[i])
    &&& str_member(es@[1], "model"@, model)
    &&& es@[2].0@ == "stream"@ && es@[2].1 == JsonValue::Bool(true)
    &&& es@[3].0@ == "tools"@
    &&& es@[3].1 matches JsonValue::Array(ts)
    &&& ts@.len() == 1
    &&& is_delegate_tool(ts@[0])
}

/// The body of a streamed chat completion request for the conversation
/// `messages`, addressed to `model`, offering the delegation tool.
pub fn chat_request_body(messages: Vec<ChatMessage>, model: &str) -> (r: JsonValue)
    ensures
        chat_body_is(messages@, model@, r),
{
    let ghost ms = messages@;
    let mut xs: Vec<JsonValue> = Vec::new();
    broadcast use vstd::std_specs::vec::axiom_spec_into_iter;
    for m in it: messages
        invariant
            it.seq() == ms,
            xs@.len() == it.index(),
            forall|i: int| 0 <= i < it.index() ==> message_wire_is(ms[i], #[trigger] xs@[i]),
    {
        let ghost i = it.index();
        let x = m.to_wire();
        xs.push(x);
        assert(xs@[i as int] == x);
    }
    let tools = JsonValue::Array(vec![delegate_tool_definition()]);
    JsonValue::Object(
        vec![
            ("messages".to_string(), JsonValue::Array(xs)),
            ("model".to_string(), JsonValue::Str(model.to_string())),
            ("stream".to_string(), JsonValue::Bool(true)),
            ("tools".to_string(), tools),
        ],
    )
}

} // verus!
