//! Encoding of the generation request and decoding of the backend's reply.
//!
//! A conversational turn is posted as `{"input": <text>, "stream": false}`.
//! The reply is tolerated rather than validated: the `output` field becomes
//! the message content, with a fixed placeholder when it is missing or not a
//! string; the `messages` array, if present, is scanned for entries tagged
//! `"type": "tool_call"`, and every entry carrying both a `name` string and an
//! `arguments` value becomes a [`ToolCall`], malformed entries being skipped.

use vstd::prelude::*;
use vstd::string::StringExecFns;

use crate::ApiError;
use crate::is_success_code;
use crate::json::JsonValue;
use crate::json::find_key;
use crate::json::lookup;
use crate::json::parse_json;
use crate::json::parsed_of;
use crate::json::render_json;
use crate::json::rendered_of;
use crate::json::string_eq;

verus! {

/// A structured instruction found in the backend's reply: a named action with
/// opaque arguments. Order follows appearance order in the reply.
#[derive(Debug, PartialEq)]
pub struct ToolCall {
    /// The action's name.
    pub name: String,
    /// The action's arguments, carried through untouched.
    pub arguments: JsonValue,
}

/// The mathematical shape of a [`ToolCall`]: its name as characters, its
/// arguments as they stand.
#[verifier::ext_equal]
pub struct ToolCallView {
    /// The action's name.
    pub name: Seq<char>,
    /// The action's arguments.
    pub arguments: JsonValue,
}

impl View for ToolCall {
    type V = ToolCallView;

    open spec fn view(&self) -> ToolCallView {
        ToolCallView { name: self.name@, arguments: self.arguments }
    }
}

/// One decoded conversational reply: the text content and, where any were
/// found, the tool calls. `None` tool calls mean "field not applicable", not
/// an empty list: zero qualifying entries yield `None`.
#[derive(Debug, PartialEq)]
pub struct ChatMessage {
    /// The reply's text content.
    pub content: String,
    /// The extracted tool calls, absent when none qualified.
    pub tool_calls: Option<Vec<ToolCall>>,
}

/// The mathematical shape of a [`ChatMessage`].
#[verifier::ext_equal]
pub struct ChatView {
    /// The reply's text content as characters.
    pub content: Seq<char>,
    /// The extracted tool calls, absent when none qualified.
    pub tool_calls: Option<Seq<ToolCallView>>,
}

/// The views of a sequence of tool calls, in order.
pub open spec fn views_of_calls(calls: Seq<ToolCall>) -> Seq<ToolCallView> {
    calls.map_values(|t: ToolCall| t@)
}

impl View for ChatMessage {
    type V = ChatView;

    open spec fn view(&self) -> ChatView {
        ChatView {
            content: self.content@,
            tool_calls: match self.tool_calls {
                Option::None => None,
                Option::Some(cs) => Some(views_of_calls(cs@)),
            },
        }
    }
}

/// The fixed text substituted for a reply whose `output` field is missing or
/// not a string.
pub open spec fn placeholder_text() -> Seq<char> {
    "No response"@
}

/// The content a parsed reply carries: its top-level `output` string, or the
/// placeholder when the reply is not an object, has no `output` field, or has
/// one that is not a string.
pub open spec fn content_of(v: JsonValue) -> Seq<char> {
    match v {
        JsonValue::Obj(fields) => match lookup(fields@, "output"@) {
            Some(JsonValue::Str(s)) => s@,
            _ => placeholder_text(),
        },
        _ => placeholder_text(),
    }
}

/// The entries of a parsed reply's top-level `messages` array: `None` when
/// the reply is not an object, has no `messages` field, or has one that is
/// not an array.
pub open spec fn messages_of(v: JsonValue) -> Option<Seq<JsonValue>> {
    match v {
        JsonValue::Obj(fields) => match lookup(fields@, "messages"@) {
            Some(JsonValue::Arr(entries)) => Some(entries@),
            _ => None,
        },
        _ => None,
    }
}

/// A well-formed tool-call entry: an object tagged `"type": "tool_call"` that
/// carries both a `name` string and an `arguments` value.
pub open spec fn is_tool_call_entry(e: JsonValue) -> bool {
    &&& e matches JsonValue::Obj(ef)
    &&& lookup(ef@, "type"@) matches Some(t) && t matches JsonValue::Str(tag) && tag@
        == "tool_call"@
    &&& lookup(ef@, "name"@) matches Some(n) && n is Str
    &&& lookup(ef@, "arguments"@) is Some
}

/// The tool call a well-formed entry denotes.
pub open spec fn tool_call_of(e: JsonValue) -> ToolCallView
    recommends
        is_tool_call_entry(e),
{
    ToolCallView {
        name: lookup(e->Obj_0@, "name"@)->Some_0->Str_0@,
        arguments: lookup(e->Obj_0@, "arguments"@)->Some_0,
    }
}

/// The tool calls denoted by a sequence of entries: exactly the well-formed
/// entries, in order; malformed ones contribute nothing.
pub open spec fn tool_calls_of(entries: Seq<JsonValue>) -> Seq<ToolCallView>
    decreases entries.len(),
{
    if entries.len() == 0 {
        Seq::empty()
    } else if is_tool_call_entry(entries[0]) {
        seq![tool_call_of(entries[0])] + tool_calls_of(entries.drop_first())
    } else {
        tool_calls_of(entries.drop_first())
    }
}

/// The decoded shape of a parsed reply: its content, and its tool calls where
/// at least one entry qualified.
pub open spec fn chat_of(v: JsonValue) -> ChatView {
    ChatView {
        content: content_of(v),
        tool_calls: match messages_of(v) {
            None => None,
            Some(entries) => if tool_calls_of(entries).len() == 0 {
                None
            } else {
                Some(tool_calls_of(entries))
            },
        },
    }
}

/// What decoding an HTTP reply yields: the server's non-success status is
/// reported as `ServerError` whatever the body holds, a body that is not
/// valid JSON as `DecodeError`, and anything else as the decoded message.
pub open spec fn decode_spec(status: u16, body: Seq<char>) -> Result<ChatView, ApiError> {
    if !is_success_code(status) {
        Err(ApiError::ServerError(status))
    } else {
        match parsed_of(body) {
            None => Err(ApiError::DecodeError),
            Some(v) => Ok(chat_of(v)),
        }
    }
}

/// The request value for one conversational turn: exactly two fields, the
/// user's text under `input` and a `stream` flag fixed to `false`.
pub open spec fn is_request_val(v: JsonValue, input: Seq<char>) -> bool {
    &&& v matches JsonValue::Obj(fields)
    &&& fields@.len() == 2
    &&& fields@[0].0@ == "input"@
    &&& fields@[0].1 matches JsonValue::Str(s) && s@ == input
    &&& fields@[1].0@ == "stream"@
    &&& fields@[1].1 == JsonValue::Bool(false)
}

/// Builds the request value for the given user text.
pub fn build_request(input: String) -> (r: JsonValue)
    ensures
        is_request_val(r, input@),
{
    let mut fields: Vec<(String, JsonValue)> = Vec::new();
    fields.push((String::from_str("input"), JsonValue::Str(input)));
    fields.push((String::from_str("stream"), JsonValue::Bool(false)));
    JsonValue::Obj(fields)
}

/// Builds the request value for the given user text and renders it as the
/// JSON body to post: the pair ties the rendered text to the value it stands
/// for.
pub fn encode_request(input: String) -> (r: (JsonValue, String))
    ensures
        is_request_val(r.0, input@),
        r.1@ == rendered_of(r.0),
{
    let v = build_request(input);
    let body = render_json(&v);
    (v, body)
}

/// Reads the reply's content out of a parsed value: the top-level `output`
/// string, or the fixed placeholder.
pub fn extract_content(v: &JsonValue) -> (r: String)
    ensures
        r@ == content_of(*v),
{
    match v {
        JsonValue::Obj(fields) => {
            let key = String::from_str("output");
            match find_key(fields, &key) {
                Some(i) => match &fields[i].1 {
                    JsonValue::Str(s) => s.clone(),
                    _ => String::from_str("No response"),
                },
                None => String::from_str("No response"),
            }
        },
        _ => String::from_str("No response"),
    }
}

/// Takes the reply's `messages` array out of a parsed value, if it has one.
pub fn extract_messages(v: JsonValue) -> (r: Option<Vec<JsonValue>>)
    ensures
        match r {
            Some(entries) => messages_of(v) == Some(entries@),
            None => messages_of(v) is None,
        },
{
    match v {
        JsonValue::Obj(mut fields) => {
            let key = String::from_str("messages");
            match find_key(&fields, &key) {
                Some(i) => {
                    let (_key, value) = fields.remove(i);
                    match value {
                        JsonValue::Arr(entries) => Some(entries),
                        _ => None,
                    }
                },
                None => None,
            }
        },
        _ => None,
    }
}

/// Turns one entry of the `messages` array into a tool call, or skips it:
/// `Some` exactly for a well-formed entry.
fn try_tool_call(e: JsonValue) -> (r: Option<ToolCall>)
    ensures
        match r {
            Some(tc) => is_tool_call_entry(e) && tc@ == tool_call_of(e),
            None => !is_tool_call_entry(e),
        },
{
    match e {
        JsonValue::Obj(mut ef) => {
            let type_key = String::from_str("type");
            let tag = String::from_str("tool_call");
            let type_ok = match find_key(&ef, &type_key) {
                Some(i) => match &ef[i].1 {
                    JsonValue::Str(t) => string_eq(t, &tag),
                    _ => false,
                },
                None => false,
            };
            if !type_ok {
                return None;
            }
            let name_key = String::from_str("name");
            let name = match find_key(&ef, &name_key) {
                Some(i) => match &ef[i].1 {
                    JsonValue::Str(n) => n.clone(),
                    _ => {
                        return None;
                    },
                },
                None => {
                    return None;
                },
            };
            let args_key = String::from_str("arguments");
            match find_key(&ef, &args_key) {
                Some(i) => {
                    let (_key, arguments) = ef.remove(i);
                    Some(ToolCall { name, arguments })
                },
                None => None,
            }
        },
        _ => None,
    }
}

/// Scans the `messages` entries in order and keeps exactly the well-formed
/// tool-call entries.
pub fn extract_tool_calls(entries: Vec<JsonValue>) -> (r: Vec<ToolCall>)
    ensures
        views_of_calls(r@) == tool_calls_of(entries@),
{
    let ghost all_entries: Seq<JsonValue> = entries@;
    let mut rest = entries;
    let mut calls: Vec<ToolCall> = Vec::new();
    while rest.len() > 0
        invariant
            views_of_calls(calls@) + tool_calls_of(rest@) == tool_calls_of(all_entries),
        decreases rest@.len(),
    {
        let ghost before: Seq<JsonValue> = rest@;
        let ghost calls_before: Seq<ToolCall> = calls@;
        let e = rest.remove(0);
        proof {
            assert(rest@ =~= before.drop_first());
        }
        match try_tool_call(e) {
            Some(tc) => {
                calls.push(tc);
                proof {
                    assert(views_of_calls(calls@) =~= views_of_calls(calls_before).push(tc@));
                    assert(views_of_calls(calls_before).push(tc@) + tool_calls_of(rest@)
                        =~= views_of_calls(calls_before) + (seq![tool_call_of(e)]
                        + tool_calls_of(before.drop_first())));
                }
            },
            None => {},
        }
    }
    proof {
        assert(views_of_calls(calls@) + tool_calls_of(rest@) =~= views_of_calls(calls@));
    }
    calls
}

/// Decodes a whole parsed reply into the message handed to the caller.
pub fn extract_chat(v: JsonValue) -> (r: ChatMessage)
    ensures
        r@ == chat_of(v),
{
    let content = extract_content(&v);
    let tool_calls = match extract_messages(v) {
        None => None,
        Some(entries) => {
            let calls = extract_tool_calls(entries);
            if calls.len() == 0 {
                None
            } else {
                Some(calls)
            }
        },
    };
    let r = ChatMessage { content, tool_calls };
    proof {
        assert(r@ =~= chat_of(v));
    }
    r
}

/// Decodes the backend's HTTP reply to a generation request. A non-success
/// status is a `ServerError` carrying that status, whatever the body holds; a
/// body that is not valid JSON is a `DecodeError`; otherwise the decoded
/// message is returned.
pub fn decode_response(status: u16, body: &str) -> (r: Result<ChatMessage, ApiError>)
    ensures
        !is_success_code(status) ==> r == Result::<ChatMessage, ApiError>::Err(
            ApiError::ServerError(status),
        ),
        is_success_code(status) && parsed_of(body@) is None ==> r == Result::<
            ChatMessage,
            ApiError,
        >::Err(ApiError::DecodeError),
        is_success_code(status) && parsed_of(body@) is Some ==> (r matches Ok(m) && m@ == chat_of(
            parsed_of(body@)->Some_0,
        )),
        r is Ok <==> decode_spec(status, body@) is Ok,
        r matches Err(e) ==> decode_spec(status, body@) == Result::<ChatView, ApiError>::Err(e),
        r matches Ok(m) ==> decode_spec(status, body@) == Result::<ChatView, ApiError>::Ok(m@),
{
    if !crate::status_is_success(status) {
        return Err(ApiError::ServerError(status));
    }
    match parse_json(body) {
        None => Err(ApiError::DecodeError),
        Some(v) => Ok(extract_chat(v)),
    }
}

/// Decodes the whole outcome of posting a generation request: a transport
/// failure — no response at all — is a `TransportError`; a response is
/// decoded by [`decode_response`].
pub fn relay_response(response: Option<(u16, String)>) -> (r: Result<ChatMessage, ApiError>)
    ensures
        response is None ==> r == Result::<ChatMessage, ApiError>::Err(ApiError::TransportError),
        response matches Some(p) ==> {
            &&& (r is Ok <==> decode_spec(p.0, p.1@) is Ok)
            &&& (r matches Err(e) ==> decode_spec(p.0, p.1@) == Result::<ChatView, ApiError>::Err(
                e,
            ))
            &&& (r matches Ok(m) ==> decode_spec(p.0, p.1@) == Result::<ChatView, ApiError>::Ok(
                m@,
            ))
        },
{
    match response {
        None => Err(ApiError::TransportError),
        Some((status, body)) => decode_response(status, body.as_str()),
    }
}

/// Concatenating entry sequences concatenates their tool calls.
pub proof fn lemma_tool_calls_append(a: Seq<JsonValue>, b: Seq<JsonValue>)
    ensures
        tool_calls_of(a + b) == tool_calls_of(a) + tool_calls_of(b),
    decreases a.len(),
{
    if a.len() == 0 {
        assert(a + b =~= b);
        assert(tool_calls_of(a) + tool_calls_of(b) =~= tool_calls_of(b));
    } else {
        assert((a + b).drop_first() =~= a.drop_first() + b);
        lemma_tool_calls_append(a.drop_first(), b);
        if is_tool_call_entry(a[0]) {
            assert(seq![tool_call_of(a[0])] + (tool_calls_of(a.drop_first()) + tool_calls_of(b))
                =~= (seq![tool_call_of(a[0])] + tool_calls_of(a.drop_first())) + tool_calls_of(b));
        }
    }
}

/// A malformed entry — one that is not a well-formed tool-call entry, for
/// instance because `arguments` is missing — is skipped: the tool calls of
/// the whole array are exactly those of its other entries.
pub proof fn lemma_malformed_entry_skipped(
    prefix: Seq<JsonValue>,
    e: JsonValue,
    suffix: Seq<JsonValue>,
)
    requires
        !is_tool_call_entry(e),
    ensures
        tool_calls_of(prefix + seq![e] + suffix) == tool_calls_of(prefix + suffix),
{
    reveal_with_fuel(tool_calls_of, 2);
    lemma_tool_calls_append(prefix + seq![e], suffix);
    lemma_tool_calls_append(prefix, seq![e]);
    lemma_tool_calls_append(prefix, suffix);
    assert(seq![e].drop_first() =~= Seq::<JsonValue>::empty());
    assert(tool_calls_of(seq![e]) =~= Seq::<ToolCallView>::empty());
    assert(tool_calls_of(prefix) + Seq::<ToolCallView>::empty() =~= tool_calls_of(prefix));
}

/// A well-formed entry is kept wherever it stands: sibling entries before and
/// after it contribute their own tool calls unchanged.
pub proof fn lemma_well_formed_entry_kept(
    prefix: Seq<JsonValue>,
    e: JsonValue,
    suffix: Seq<JsonValue>,
)
    requires
        is_tool_call_entry(e),
    ensures
        tool_calls_of(prefix + seq![e] + suffix) == tool_calls_of(prefix) + seq![tool_call_of(e)]
            + tool_calls_of(suffix),
{
    reveal_with_fuel(tool_calls_of, 2);
    lemma_tool_calls_append(prefix + seq![e], suffix);
    lemma_tool_calls_append(prefix, seq![e]);
    assert(seq![e].drop_first() =~= Seq::<JsonValue>::empty());
    assert(tool_calls_of(seq![e]) =~= seq![tool_call_of(e)]);
}

/// A reply without a usable `output` string — not an object, no `output`
/// field, or one that is not a string — yields the fixed placeholder as its
/// content rather than an error.
pub proof fn lemma_missing_output_placeholder(v: JsonValue)
    requires
        !(v matches JsonValue::Obj(fields) && lookup(fields@, "output"@) matches Some(o)
            && o is Str),
    ensures
        content_of(v) == placeholder_text(),
{
}

/// A non-success HTTP status is reported as `ServerError` carrying that
/// status, and the body is never consulted: every body decodes to the same
/// error.
pub proof fn lemma_server_error_skips_body(status: u16, body: Seq<char>, other: Seq<char>)
    requires
        !is_success_code(status),
    ensures
        decode_spec(status, body) == Result::<ChatView, ApiError>::Err(
            ApiError::ServerError(status),
        ),
        decode_spec(status, body) == decode_spec(status, other),
{
}

} // verus!

