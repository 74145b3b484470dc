use desktop_agent::json::Json;
use desktop_agent::models::task_state::feedback_label;
use desktop_agent::{ActionResult, TaskState};

#[test]
fn fresh_state() {
    let state = TaskState::new();
    assert_eq!(state.status, "in_progress");
    assert_eq!(state.attempts, 0);
    assert_eq!(state.last_action, "");
    assert_eq!(
        state.success_criteria,
        vec!["Task completed", "Information found", "Research complete", "Task done"]
    );
    assert!(state.memory.is_empty());
    assert!(state.feedback.is_empty());
    assert!(state.start_time > 0);
    assert_eq!(state.start_time, state.last_update);
}

#[test]
fn pause_boundary_on_attempts() {
    let mut state = TaskState::new();
    state.attempts = 10;
    assert!(!state.should_pause());
    state.attempts = 11;
    assert!(state.should_pause());
}

#[test]
fn pause_on_three_equal_labels() {
    let mut state = TaskState::new();
    state.feedback = vec!["timeout: x".to_string(), "timeout: y".to_string(), "timeout: z".to_string()];
    assert!(state.should_pause());
    state.feedback = vec!["timeout: x".to_string(), "error: y".to_string(), "timeout: z".to_string()];
    assert!(!state.should_pause());
    state.feedback = vec!["old: a".to_string(), "same".to_string(), "same".to_string(), "same: b".to_string()];
    assert!(state.should_pause());
    state.feedback = vec!["timeout: x".to_string(), "timeout: y".to_string()];
    assert!(!state.should_pause());
}

#[test]
fn labels_end_at_first_colon() {
    assert_eq!(feedback_label("timeout: waited 5s: again"), "timeout");
    assert_eq!(feedback_label("no colon"), "no colon");
    assert_eq!(feedback_label(":x"), "");
}

#[test]
fn update_folds_analysis_and_plan() {
    let mut state = TaskState::new();
    state.update(
        r#"{"context":"Editor open","state":{"window_title":"notes.txt"},"challenges":["popup: blocks view", 3]}"#,
        r#"[{"action":"wait","ms":5},{"action":"key_press","key":"tab"}]"#,
    );
    assert_eq!(state.attempts, 1);
    assert_eq!(state.last_action, "key_press");
    assert_eq!(
        state.memory,
        vec![
            ("last_context".to_string(), "Editor open".to_string()),
            ("last_window".to_string(), "notes.txt".to_string()),
        ]
    );
    assert_eq!(state.feedback, vec!["popup: blocks view"]);
    assert_eq!(state.analysis.str_at("context"), Some("Editor open"));
    state.update(r#"{"context":"Browser"}"#, "not json");
    assert_eq!(state.attempts, 2);
    assert_eq!(state.last_action, "key_press");
    assert_eq!(state.memory[0], ("last_context".to_string(), "Browser".to_string()));
    assert_eq!(state.memory.len(), 2);
    state.update("{broken", "[]");
    assert_eq!(state.attempts, 3);
    assert_eq!(state.analysis.str_at("context"), Some("Error parsing analysis"));
    assert_eq!(state.feedback.last().map(|f| f.as_str()), Some("JSON parsing error, possible truncation"));
}

#[test]
fn update_repairs_a_truncated_analysis() {
    let mut state = TaskState::new();
    state.update(r#"{"context":"c","ui_elements":[],"challenges":[]"#, "[]");
    assert_eq!(state.analysis.str_at("context"), Some("c"));
    assert_eq!(state.memory, vec![("last_context".to_string(), "c".to_string())]);
    assert!(state.feedback.is_empty());
}

#[test]
fn update_falls_back_on_an_unrepairable_analysis() {
    let mut state = TaskState::new();
    state.update(r#"{"context":"c"]]}"#, "[]");
    let challenges = state.analysis.array_at("challenges").expect("challenges");
    assert_eq!(challenges.len(), 1);
    assert!(matches!(&challenges[0], Json::Str(s) if s == "JSON parsing error, possible truncation"));
    assert_eq!(state.feedback, vec!["JSON parsing error, possible truncation"]);
}

#[test]
fn fallback_analysis_reads_back_unchanged() {
    let mut state = TaskState::new();
    state.analysis = desktop_agent::response::fallback_analysis();
    let back = TaskState::from_text(&state.to_text()).expect("reads back");
    assert_eq!(format!("{:?}", back.analysis), format!("{:?}", state.analysis));
}

#[test]
fn remember_replaces_a_key() {
    let mut state = TaskState::new();
    state.remember("a", "1");
    state.remember("b", "2");
    state.remember("a", "3");
    assert_eq!(
        state.memory,
        vec![("a".to_string(), "3".to_string()), ("b".to_string(), "2".to_string())]
    );
}

#[test]
fn completion_heuristic() {
    let text = r#"{"context":"Task completed. Information found. Research complete. Task done.","challenges":[]}"#;
    let mut state = TaskState::new();
    state.attempts = 2;
    state.last_action = "task_done".to_string();
    assert!(state.is_complete(text));
    state.attempts = 1;
    assert!(!state.is_complete(text));
    state.attempts = 2;
    state.last_action = String::new();
    assert!(!state.is_complete(text));
    state.last_action = "wait".to_string();
    let challenged = r#"{"context":"Task completed. Information found. Research complete. Task done.","challenges":["x"]}"#;
    assert!(!state.is_complete(challenged));
    assert!(!state.is_complete(r#"{"context":"Task completed."}"#));
    assert!(state.is_complete("Task completed Information found Research complete Task done"));
}

#[test]
fn set_done_and_log() {
    let mut state = TaskState::new();
    state.add_action_result(ActionResult::new("wait").success());
    state.set_task_done();
    assert_eq!(state.status, "task_done");
    assert_eq!(state.action_results.len(), 1);
    assert_eq!(state.attempts, 0);
}

#[test]
fn on_disk_form_reads_back_unchanged() {
    let mut state = TaskState::new();
    state.update(
        r#"{"context":"Editor","state":{"window_title":"Doc"},"challenges":["timeout: a"],"ui_elements":[{"type":"b","coords":[1,2,3,4]}]}"#,
        r#"[{"action":"wait","ms":5}]"#,
    );
    state.add_action_result(ActionResult::new("wait").with_error("boom"));
    let mut retried = ActionResult::new("mouse_move").success();
    retried.retry_count = 2;
    state.add_action_result(retried);
    state.status = "paused".to_string();
    let text = state.to_text();
    assert!(text.contains("\"status\""));
    let back = TaskState::from_text(&text).expect("reads back");
    assert_eq!(back.status, state.status);
    assert_eq!(back.attempts, state.attempts);
    assert_eq!(back.last_action, state.last_action);
    assert_eq!(back.success_criteria, state.success_criteria);
    assert_eq!(back.memory, state.memory);
    assert_eq!(back.feedback, state.feedback);
    assert_eq!(back.start_time, state.start_time);
    assert_eq!(back.last_update, state.last_update);
    assert_eq!(format!("{:?}", back.action_results), format!("{:?}", state.action_results));
    assert_eq!(back.analysis.to_text(), state.analysis.to_text());
}

#[test]
fn unreadable_state_text() {
    assert!(TaskState::from_text("not json").is_none());
    assert!(TaskState::from_text(r#"{"status":"in_progress"}"#).is_none());
    let json: Json = Json::parse(r#"{"status":1}"#).unwrap();
    assert!(TaskState::from_json(&json).is_none());
}

#[test]
fn non_integer_numbers_keep_their_numerals() {
    let analysis = Json::parse(r#"{"ui_elements":[{"coords":[12.5,3,18446744073709551615,-7]}]}"#).unwrap();
    let elements = analysis.array_at("ui_elements").unwrap();
    let coords = elements[0].array_at("coords").unwrap();
    assert!(matches!(&coords[0], Json::Number(t) if t == "12.5"));
    assert!(matches!(&coords[1], Json::Int(3)));
    assert!(matches!(&coords[2], Json::Number(t) if t == "18446744073709551615"));
    assert!(matches!(&coords[3], Json::Int(-7)));
    let mut state = TaskState::new();
    state.analysis = analysis;
    let back = TaskState::from_text(&state.to_text()).expect("reads back");
    assert_eq!(back.analysis.to_text(), state.analysis.to_text());
    assert!(back.analysis.to_text().contains("12.5"));
}
