//! What the task commands read from an operation's result, and which
//! operation each assistant intent names.

use vstd::prelude::*;
use crate::json::{Json, member, find_key, get, str_equal};

verus! {

/// The operation that an assistant intent names.
pub open spec fn intent_tool(intent: Seq<char>) -> Option<Seq<char>> {
    if intent == "context"@ {
        Some("tasks_context"@)
    } else if intent == "create"@ {
        Some("tasks_create"@)
    } else if intent == "decompose"@ {
        Some("tasks_decompose"@)
    } else if intent == "define"@ {
        Some("tasks_define"@)
    } else if intent == "verify"@ {
        Some("tasks_verify"@)
    } else if intent == "progress"@ {
        Some("tasks_progress"@)
    } else if intent == "done"@ {
        Some("tasks_done"@)
    } else if intent == "complete"@ {
        Some("tasks_complete"@)
    } else if intent == "delete"@ {
        Some("tasks_delete"@)
    } else if intent == "storage"@ {
        Some("tasks_storage"@)
    } else if intent == "undo"@ {
        Some("tasks_undo"@)
    } else if intent == "redo"@ {
        Some("tasks_redo"@)
    } else if intent == "history"@ {
        Some("tasks_history"@)
    } else if intent == "next"@ {
        Some("tasks_next"@)
    } else if intent == "suggest"@ {
        Some("tasks_macro_suggest"@)
    } else {
        None
    }
}

/// The operation that an assistant intent names, if it names one.
pub fn tool_for_intent(intent: &str) -> (r: Option<String>)
    ensures
        match intent_tool(intent@) {
            Some(t) => r matches Some(s) && s@ == t,
            None => r is None,
        },
{
    if str_equal(intent, "context") {
        return Some(String::from_str("tasks_context"));
    }
    if str_equal(intent, "create") {
        return Some(String::from_str("tasks_create"));
    }
    if str_equal(intent, "decompose") {
        return Some(String::from_str("tasks_decompose"));
    }
    if str_equal(intent, "define") {
        return Some(String::from_str("tasks_define"));
    }
    if str_equal(intent, "verify") {
        return Some(String::from_str("tasks_verify"));
    }
    if str_equal(intent, "progress") {
        return Some(String::from_str("tasks_progress"));
    }
    if str_equal(intent, "done") {
        return Some(String::from_str("tasks_done"));
    }
    if str_equal(intent, "complete") {
        return Some(String::from_str("tasks_complete"));
    }
    if str_equal(intent, "delete") {
        return Some(String::from_str("tasks_delete"));
    }
    if str_equal(intent, "storage") {
        return Some(String::from_str("tasks_storage"));
    }
    if str_equal(intent, "undo") {
        return Some(String::from_str("tasks_undo"));
    }
    if str_equal(intent, "redo") {
        return Some(String::from_str("tasks_redo"));
    }
    if str_equal(intent, "history") {
        return Some(String::from_str("tasks_history"));
    }
    if str_equal(intent, "next") {
        return Some(String::from_str("tasks_next"));
    }
    if str_equal(intent, "suggest") {
        return Some(String::from_str("tasks_macro_suggest"));
    }
    None
}

/// Whether the result reports success: its `success` member where that is
/// a boolean, and success otherwise.
pub open spec fn reported_success(result: Json) -> bool {
    match member(result, "success"@) {
        Some(Json::Bool(b)) => b,
        _ => true,
    }
}

/// Whether the result reports success.
pub fn success_of(result: &Json) -> (r: bool)
    ensures
        r == reported_success(*result),
{
    match get(result, "success") {
        Some(Json::Bool(b)) => *b,
        _ => true,
    }
}

/// The items of the result's array member `key`, or none where it has no
/// such array.
pub open spec fn listed(result: Json, key: Seq<char>) -> Seq<Json> {
    match member(result, key) {
        Some(Json::Array(items)) => items@,
        _ => Seq::empty(),
    }
}

/// Takes the items of the result's array member `key`.
pub fn take_list(result: Json, key: &str) -> (r: Vec<Json>)
    ensures
        r@ == listed(result, key@),
{
    match result {
        Json::Object(mut entries) => match find_key(&entries, key) {
            Some(i) => {
                let (_, v) = entries.remove(i);
                match v {
                    Json::Array(items) => items,
                    _ => Vec::new(),
                }
            },
            None => Vec::new(),
        },
        _ => Vec::new(),
    }
}

/// Takes the result's member `key`.
pub fn take_member(result: Json, key: &str) -> (r: Option<Json>)
    ensures
        r == member(result, key@),
{
    match result {
        Json::Object(mut entries) => match find_key(&entries, key) {
            Some(i) => {
                let (_, v) = entries.remove(i);
                Some(v)
            },
            None => None,
        },
        _ => None,
    }
}

/// The strings among `items`, in order.
pub open spec fn strings_in(items: Seq<Json>) -> Seq<Seq<char>>
    decreases items.len(),
{
    if items.len() == 0 {
        Seq::empty()
    } else {
        let rest = strings_in(items.drop_last());
        match items.last() {
            Json::Str(s) => rest.push(s@),
            _ => rest,
        }
    }
}

/// The suggestions that a result offers: the strings of its `suggestions`
/// array, in order, where it has one.
pub fn suggestions_of(result: &Json) -> (r: Option<Vec<String>>)
    ensures
        match member(*result, "suggestions"@) {
            Some(Json::Array(items)) => r matches Some(v) && v@.map_values(|s: String| s@)
                == strings_in(items@),
            _ => r is None,
        },
{
    match get(result, "suggestions") {
        Some(Json::Array(items)) => {
            let mut out: Vec<String> = Vec::new();
            let mut i: usize = 0;
            while i < items.len()
                invariant
                    i <= items@.len(),
                    out@.map_values(|s: String| s@) == strings_in(items@.subrange(0, i as int)),
                decreases items@.len() - i,
            {
                proof {
                    assert(items@.subrange(0, i + 1).drop_last() =~= items@.subrange(0, i as int));
                }
                match &items[i] {
                    Json::Str(s) => {
                        out.push(s.clone());
                        assert(out@.map_values(|s: String| s@) =~= strings_in(items@.subrange(0, i + 1)));
                    },
                    _ => {},
                }
                i = i + 1;
            }
            assert(items@.subrange(0, items@.len() as int) =~= items@);
            Some(out)
        },
        _ => None,
    }
}

} // verus!
