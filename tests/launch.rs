use apply_task_bridge::codec::parse_json;
use apply_task_bridge::json::Json;
use apply_task_bridge::launch::{interpreter, launch_plan, locate_entry, Entry};
use apply_task_bridge::replies::{success_of, suggestions_of, take_list, take_member, tool_for_intent};

fn doc(text: &str) -> Json {
    parse_json(text).expect("test document parses")
}

#[test]
fn entry_prefers_configured_path() {
    let e = locate_entry(Some("/opt/at".to_string()), Some("/usr/bin/at".to_string()), None);
    assert_eq!(e, Entry::Script { path: "/opt/at".to_string() });
}

#[test]
fn entry_skips_empty_search_result() {
    let e = locate_entry(None, Some(String::new()), Some("/root/tasks.py".to_string()));
    assert_eq!(e, Entry::Script { path: "/root/tasks.py".to_string() });
    let e = locate_entry(None, Some("/usr/bin/at".to_string()), Some("/root/tasks.py".to_string()));
    assert_eq!(e, Entry::Script { path: "/usr/bin/at".to_string() });
}

#[test]
fn entry_falls_back_to_module() {
    let e = locate_entry(None, None, None);
    assert_eq!(e, Entry::Module { name: "core.desktop.devtools.interface.mcp_server".to_string() });
}

#[test]
fn interpreter_defaults_to_python3() {
    assert_eq!(interpreter(None, None), "python3");
    assert_eq!(interpreter(None, Some("py".to_string())), "py");
    assert_eq!(interpreter(Some("a".to_string()), Some("b".to_string())), "a");
}

#[test]
fn launch_of_script_and_module() {
    let l = launch_plan(
        "python3".to_string(),
        Entry::Script { path: "/x/apply_task".to_string() },
        "/root".to_string(),
        "/work".to_string(),
    );
    assert_eq!(l.program, "/x/apply_task");
    assert_eq!(l.args, vec!["mcp".to_string()]);
    assert_eq!(l.working_dir, "/work");
    assert_eq!(l.env, vec![("PYTHONPATH".to_string(), "/root".to_string())]);
    let l = launch_plan(
        "python3".to_string(),
        Entry::Module { name: "m.n".to_string() },
        "/root".to_string(),
        "/work".to_string(),
    );
    assert_eq!(l.program, "python3");
    assert_eq!(l.args, vec!["-m".to_string(), "m.n".to_string()]);
}

#[test]
fn intents_map_to_operations() {
    assert_eq!(tool_for_intent("context"), Some("tasks_context".to_string()));
    assert_eq!(tool_for_intent("suggest"), Some("tasks_macro_suggest".to_string()));
    assert_eq!(tool_for_intent("redo"), Some("tasks_redo".to_string()));
    assert_eq!(tool_for_intent("fly"), None);
}

#[test]
fn success_member_is_read() {
    assert!(!success_of(&doc(r#"{"success":false}"#)));
    assert!(success_of(&doc(r#"{"success":"no"}"#)));
    assert!(success_of(&doc("{}")));
}

#[test]
fn lists_and_members_are_taken() {
    assert_eq!(take_list(doc(r#"{"tasks":[1,2]}"#), "tasks"), vec![Json::UInt(1), Json::UInt(2)]);
    assert_eq!(take_list(doc(r#"{"tasks":3}"#), "tasks"), vec![]);
    assert_eq!(take_member(doc(r#"{"task":{"id":"T"}}"#), "task"), Some(doc(r#"{"id":"T"}"#)));
    assert_eq!(take_member(doc("{}"), "task"), None);
}

#[test]
fn suggestions_keep_strings_only() {
    assert_eq!(
        suggestions_of(&doc(r#"{"suggestions":["a",1,"b"]}"#)),
        Some(vec!["a".to_string(), "b".to_string()])
    );
    assert_eq!(suggestions_of(&doc("{}")), None);
}
