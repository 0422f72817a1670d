//! Unwrapping of the content envelope around an operation's result.

use vstd::prelude::*;
use crate::json::{Json, member, find_key, get};
use crate::codec::{parsed_json, parse_json, Response};
use crate::error::BridgeError;

verus! {

/// The first item of the result's `content` array, where it has one.
pub open spec fn first_item(result: Json) -> Option<Json> {
    match member(result, "content"@) {
        Some(Json::Array(items)) => if items@.len() > 0 {
            Some(items@[0])
        } else {
            None
        },
        _ => None,
    }
}

/// What the text of an envelope item comes to, once read as JSON.
pub open spec fn decoded(parsed: Option<Json>) -> Result<Json, BridgeError> {
    match parsed {
        Some(v) => Ok(v),
        None => Err(BridgeError::EnvelopeDecodeError),
    }
}

/// What an operation's result comes to: the `json` member of the first
/// content item; else its `text` member read as JSON; else, where there is
/// no such item or it has neither, the whole result as it came.
pub open spec fn unwrapped(result: Json) -> Result<Json, BridgeError> {
    match first_item(result) {
        Some(item) => match member(item, "json"@) {
            Some(v) => Ok(v),
            None => match member(item, "text"@) {
                Some(Json::Str(t)) => decoded(parsed_json(t@)),
                _ => Ok(result),
            },
        },
        None => Ok(result),
    }
}

/// What a response to an operation call comes to.
pub open spec fn call_outcome(resp: Response) -> Result<Json, BridgeError> {
    match resp.error {
        Some(e) => Err(BridgeError::ToolInvocationError { code: e.code, message: e.message }),
        None => match resp.result {
            Some(v) => unwrapped(v),
            None => Err(BridgeError::EmptyToolResponse),
        },
    }
}

/// The result carried by the text of an envelope item, given what
/// reading that text as JSON gave.
pub fn decode_text(parsed: Option<Json>) -> (r: Result<Json, BridgeError>)
    ensures
        r == decoded(parsed),
{
    match parsed {
        Some(v) => Ok(v),
        None => Err(BridgeError::EnvelopeDecodeError),
    }
}

enum Shape {
    Inline,
    Encoded(String),
    Bare,
}

fn shape_of(result: &Json) -> (r: Shape)
    ensures
        match r {
            Shape::Inline => first_item(*result) matches Some(item) && member(item, "json"@) is Some,
            Shape::Encoded(t) => first_item(*result) matches Some(item)
                && member(item, "json"@) is None
                && member(item, "text"@) == Some(Json::Str(t)),
            Shape::Bare => unwrapped(*result) == Ok::<Json, BridgeError>(*result),
        },
{
    match get(result, "content") {
        Some(Json::Array(items)) => {
            if items.len() == 0 {
                return Shape::Bare;
            }
            let item = &items[0];
            if get(item, "json").is_some() {
                return Shape::Inline;
            }
            match get(item, "text") {
                Some(Json::Str(t)) => Shape::Encoded(t.clone()),
                _ => Shape::Bare,
            }
        },
        _ => Shape::Bare,
    }
}

fn take_inline(result: Json) -> (r: Json)
    requires
        first_item(result) matches Some(item) && member(item, "json"@) is Some,
    ensures
        member(first_item(result).unwrap(), "json"@) == Some(r),
{
    match result {
        Json::Object(mut entries) => match find_key(&entries, "content") {
            Some(ic) => {
                let (_, content) = entries.remove(ic);
                match content {
                    Json::Array(mut items) => {
                        let item = items.remove(0);
                        match item {
                            Json::Object(mut fields) => match find_key(&fields, "json") {
                                Some(ij) => {
                                    let (_, v) = fields.remove(ij);
                                    v
                                },
                                None => Json::Null,
                            },
                            _ => Json::Null,
                        }
                    },
                    _ => Json::Null,
                }
            },
            None => Json::Null,
        },
        _ => Json::Null,
    }
}

/// Unwraps an operation's result from its content envelope.
pub fn unwrap_envelope(result: Json) -> (r: Result<Json, BridgeError>)
    ensures
        r == unwrapped(result),
{
    match shape_of(&result) {
        Shape::Inline => Ok(take_inline(result)),
        Shape::Encoded(t) => decode_text(parse_json(t.as_str())),
        Shape::Bare => Ok(result),
    }
}

/// The outcome of an operation call, from the response paired with it.
pub fn call_result(resp: Response) -> (r: Result<Json, BridgeError>)
    ensures
        r == call_outcome(resp),
{
    match resp.error {
        Some(e) => Err(BridgeError::ToolInvocationError { code: e.code, message: e.message }),
        None => match resp.result {
            Some(v) => unwrap_envelope(v),
            None => Err(BridgeError::EmptyToolResponse),
        },
    }
}

} // verus!
