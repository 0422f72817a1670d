//! Line framing of outgoing messages and decoding of response lines.

use vstd::prelude::*;
use serde_json::{Number, Value};
use crate::json::{Json, member, is_text, entry_is, find_key, get};

verus! {

#[verifier::external_type_specification]
#[verifier::external_body]
pub struct ExValue(Value);

/// The document that serde_json reads from a text, if it reads one.
pub uninterp spec fn parsed_json(text: Seq<char>) -> Option<Json>;

/// The compact text that serde_json writes for a value.
pub uninterp spec fn encoded_json(value: Json) -> Seq<char>;

/// Relies on serde_json::Value's variants and on serde_json::Number's
/// `as_u64`, `as_i64` and `Display`: turns the document that `parse_json`
/// read into a tree.
#[verifier::external_body]
fn json_from_value(v: &Value) -> Json {
    match v {
        Value::Null => Json::Null,
        Value::Bool(b) => Json::Bool(*b),
        Value::Number(n) => match (n.as_u64(), n.as_i64()) {
            (Some(u), _) => Json::UInt(u),
            (None, Some(i)) => Json::NegInt(i),
            (None, None) => Json::Decimal(n.to_string()),
        },
        Value::String(s) => Json::Str(s.clone()),
        Value::Array(a) => Json::Array(a.iter().map(json_from_value).collect()),
        Value::Object(m) => Json::Object(m.iter().map(|(k, x)| (k.clone(), json_from_value(x))).collect()),
    }
}

/// Relies on serde_json::Value's constructors and on `FromStr` of
/// serde_json::Number: turns a tree into the value that `encode_json`
/// writes.
#[verifier::external_body]
fn json_to_value(j: &Json) -> Value {
    match j {
        Json::Null => Value::Null,
        Json::Bool(b) => Value::Bool(*b),
        Json::UInt(u) => Value::from(*u),
        Json::NegInt(i) => Value::from(*i),
        Json::Decimal(s) => s.parse::<Number>().map_or(Value::Null, Value::Number),
        Json::Str(s) => Value::String(s.clone()),
        Json::Array(a) => Value::Array(a.iter().map(json_to_value).collect()),
        Json::Object(m) => Value::Object(m.iter().map(|(k, x)| (k.clone(), json_to_value(x))).collect()),
    }
}

/// Relies on serde_json::from_str: reads one JSON document, surrounded by
/// whitespace at most, and fails on any other text.
#[verifier::external_body]
pub fn parse_json(text: &str) -> (r: Option<Json>)
    ensures
        r == parsed_json(text@),
{
    serde_json::from_str::<Value>(text).ok().map(|v| json_from_value(&v))
}

/// Relies on serde_json::to_string: the compact text of a value. Writing a
/// serde_json::Value cannot fail, and the compact form escapes every line
/// feed inside strings and puts none between tokens.
#[verifier::external_body]
pub fn encode_json(j: &Json) -> (r: String)
    ensures
        r@ == encoded_json(*j),
        !r@.contains('\n'),
{
    serde_json::to_string(&json_to_value(j)).unwrap_or_default()
}

/// `line` carries `j` on one line: its compact text and a line feed.
pub open spec fn frames(line: Seq<char>, j: Json) -> bool {
    line == encoded_json(j).push('\n')
}

/// The text of one message on the wire, line feed included.
pub fn frame(j: &Json) -> (r: String)
    ensures
        frames(r@, *j),
        r@.last() == '\n',
        forall|i: int| 0 <= i < r@.len() - 1 ==> r@[i] != '\n',
{
    let mut line = encode_json(j);
    line.append("\n");
    proof {
        reveal_strlit("\n");
        assert(line@ =~= encoded_json(*j).push('\n'));
        assert forall|i: int| 0 <= i < line@.len() - 1 implies line@[i] != '\n' by {
            if line@[i] == '\n' {
                assert(encoded_json(*j)[i] == '\n');
                assert(encoded_json(*j).contains('\n'));
            }
        }
    }
    line
}

/// A message to the backend: a request, which gets exactly one response
/// line, or a notification, which has no id and gets none.
#[derive(Debug, PartialEq, Eq)]
pub enum Message {
    Request { id: u64, method: String, params: Option<Json> },
    Notification { method: String },
}

/// `e` is the protocol-version entry that every message starts with.
pub open spec fn version_entry(e: (String, Json)) -> bool {
    e.0@ == "jsonrpc"@ && is_text(e.1, "2.0"@)
}

/// `j` is a request: the version, the id, the method, and the parameters
/// where there are any.
pub open spec fn request_shape(j: Json, id: u64, method: Seq<char>, params: Option<Json>) -> bool {
    match j {
        Json::Object(e) => {
            &&& version_entry(e@[0])
            &&& entry_is(e@[1], "id"@, Json::UInt(id))
            &&& e@[2].0@ == "method"@
            &&& is_text(e@[2].1, method)
            &&& match params {
                Some(p) => e@.len() == 4 && entry_is(e@[3], "params"@, p),
                None => e@.len() == 3,
            }
        },
        _ => false,
    }
}

/// `j` is a notification: the version and the method, and no id.
pub open spec fn notification_shape(j: Json, method: Seq<char>) -> bool {
    match j {
        Json::Object(e) => {
            &&& e@.len() == 2
            &&& version_entry(e@[0])
            &&& e@[1].0@ == "method"@
            &&& is_text(e@[1].1, method)
        },
        _ => false,
    }
}

/// `j` is the wire form of `m`.
pub open spec fn message_shape(m: Message, j: Json) -> bool {
    match m {
        Message::Request { id, method, params } => request_shape(j, id, method@, params),
        Message::Notification { method } => notification_shape(j, method@),
    }
}

/// An object entry whose value is a string.
pub fn text_entry(key: &str, value: &str) -> (r: (String, Json))
    ensures
        r.0@ == key@,
        is_text(r.1, value@),
{
    (String::from_str(key), Json::Str(String::from_str(value)))
}

impl Message {
    /// The JSON document that carries this message.
    pub fn to_json(self) -> (r: Json)
        ensures
            message_shape(self, r),
    {
        let mut e: Vec<(String, Json)> = Vec::new();
        e.push(text_entry("jsonrpc", "2.0"));
        match self {
            Message::Request { id, method, params } => {
                e.push((String::from_str("id"), Json::UInt(id)));
                e.push(text_entry("method", method.as_str()));
                match params {
                    Some(p) => {
                        e.push((String::from_str("params"), p));
                    },
                    None => {},
                }
            },
            Message::Notification { method } => {
                e.push(text_entry("method", method.as_str()));
            },
        }
        Json::Object(e)
    }
}

/// A backend-reported failure: its code and message.
#[derive(Debug, PartialEq, Eq)]
pub struct RpcError {
    pub code: i64,
    pub message: String,
}

/// One decoded response line.
#[derive(Debug, PartialEq, Eq)]
pub struct Response {
    pub id: u64,
    pub result: Option<Json>,
    pub error: Option<RpcError>,
}

/// A member that is absent or `null` counts as not set.
pub open spec fn present(o: Option<Json>) -> Option<Json> {
    match o {
        Some(Json::Null) => None,
        _ => o,
    }
}

/// The integer that a number holds, where it fits in `i64`.
pub open spec fn int_of(j: Json) -> Option<i64> {
    match j {
        Json::UInt(u) => if u <= i64::MAX { Some(u as i64) } else { None },
        Json::NegInt(i) => Some(i),
        _ => None,
    }
}

/// `ej` is an error object that carries an integer code and a string message.
pub open spec fn error_readable(ej: Json) -> bool {
    &&& member(ej, "code"@) matches Some(c)
    &&& int_of(c) is Some
    &&& member(ej, "message"@) matches Some(s)
    &&& s is Str
}

/// `j` can be read as a response: an object with an unsigned integer id,
/// and an error member, if it has one, that can be read.
pub open spec fn response_readable(j: Json) -> bool {
    &&& j is Object
    &&& member(j, "id"@) matches Some(Json::UInt(_))
    &&& match present(member(j, "error"@)) {
        Some(ej) => error_readable(ej),
        None => true,
    }
}

/// The string that `j` holds, where it holds one.
pub open spec fn text_of(j: Json) -> String {
    match j {
        Json::Str(s) => s,
        _ => arbitrary(),
    }
}

/// The error that an error object carries.
pub open spec fn error_spec(ej: Json) -> RpcError {
    RpcError {
        code: int_of(member(ej, "code"@).unwrap()).unwrap(),
        message: text_of(member(ej, "message"@).unwrap()),
    }
}

/// The response that the document `j` holds, if it can be read as one.
pub open spec fn response_spec(j: Json) -> Option<Response> {
    if response_readable(j) {
        Some(Response {
            id: member(j, "id"@).unwrap()->UInt_0,
            result: present(member(j, "result"@)),
            error: match present(member(j, "error"@)) {
                Some(ej) => Some(error_spec(ej)),
                None => None,
            },
        })
    } else {
        None
    }
}

/// The integer that a number holds, where it fits in `i64`.
pub fn as_int(j: &Json) -> (r: Option<i64>)
    ensures
        r == int_of(*j),
{
    match j {
        Json::UInt(u) => if *u <= i64::MAX as u64 { Some(*u as i64) } else { None },
        Json::NegInt(i) => Some(*i),
        _ => None,
    }
}

/// Reads an error object.
pub fn decode_error(ej: &Json) -> (r: Option<RpcError>)
    ensures
        r == (if error_readable(*ej) { Some(error_spec(*ej)) } else { None }),
{
    let code = match get(ej, "code") {
        Some(c) => match as_int(c) {
            Some(k) => k,
            None => return None,
        },
        None => return None,
    };
    match get(ej, "message") {
        Some(Json::Str(s)) => Some(RpcError { code, message: s.clone() }),
        _ => None,
    }
}

/// Reads a response document.
pub fn decode_response(j: Json) -> (r: Option<Response>)
    ensures
        r == response_spec(j),
{
    let ghost j0 = j;
    match j {
        Json::Object(mut entries) => {
            let id: u64 = match find_key(&entries, "id") {
                Some(i) => match &entries[i].1 {
                    Json::UInt(u) => *u,
                    _ => return None,
                },
                None => return None,
            };
            let error: Option<RpcError> = match find_key(&entries, "error") {
                Some(i) => match &entries[i].1 {
                    Json::Null => None,
                    ej => match decode_error(ej) {
                        Some(e) => Some(e),
                        None => return None,
                    },
                },
                None => None,
            };
            let result: Option<Json> = match find_key(&entries, "result") {
                Some(i) => {
                    let (_, v) = entries.remove(i);
                    match v {
                        Json::Null => None,
                        v => Some(v),
                    }
                },
                None => None,
            };
            Some(Response { id, result, error })
        },
        _ => None,
    }
}

} // verus!
