use desktop_agent::actions::verification::{
    adjust_action, center_of, nearest_element_center, retry_action, retry_until_settled, should_retry,
    verify_action,
};
use desktop_agent::input::{Direction, InputOp, Key, MouseButton};
use desktop_agent::json::Json;
use desktop_agent::{ActionResult, TaskState};

fn json(text: &str) -> Json {
    Json::parse(text).expect("test input parses")
}

fn state_with(analysis: &str) -> TaskState {
    let mut state = TaskState::new();
    state.analysis = json(analysis);
    state
}

#[test]
fn focus_title_found_ignoring_case() {
    let state = state_with(r#"{"state":{"active_window":"Google Chrome - Inbox"}}"#);
    let action = json(r#"{"action":"window_focus","title":"CHROME","class":"c","method":"alt_tab"}"#);
    let result = verify_action(&action, &state);
    assert!(result.success);
    assert_eq!(result.error_message, None);
}

#[test]
fn focus_title_absent_fails_with_both_names() {
    let state = state_with(r#"{"state":{"active_window":"Google Chrome - Inbox"}}"#);
    let action = json(r#"{"action":"window_focus","title":"Firefox"}"#);
    let result = verify_action(&action, &state);
    assert!(!result.success);
    assert_eq!(
        result.error_message.as_deref(),
        Some("Window focus failed. Expected: Firefox, Got: Google Chrome - Inbox")
    );
}

#[test]
fn focus_without_active_window_fails() {
    let state = state_with(r#"{"state":{"window_title":"x"}}"#);
    let action = json(r#"{"action":"window_focus","title":"Firefox"}"#);
    let result = verify_action(&action, &state);
    assert!(!result.success);
    assert_eq!(result.error_message.as_deref(), Some("No active window information available"));
}

#[test]
fn verification_skipped_without_state() {
    let state = TaskState::new();
    let action = json(r#"{"action":"wait","ms":100}"#);
    let result = verify_action(&action, &state);
    assert!(!result.success);
    assert_eq!(result.error_message, None);
    assert_eq!(result.action_type, "wait");
}

#[test]
fn unchecked_kinds_succeed_and_unknown_fails() {
    let state = state_with(r#"{"state":{}}"#);
    for kind in ["mouse_move", "mouse_click", "key_press", "key_combination", "text_input", "wait", "task_done"] {
        let action = json(&format!(r#"{{"action":"{}"}}"#, kind));
        assert!(verify_action(&action, &state).success, "{}", kind);
    }
    let action = json(r#"{"action":"scroll"}"#);
    let result = verify_action(&action, &state);
    assert_eq!(result.error_message.as_deref(), Some("Unknown action type"));
}

#[test]
fn click_retry_snaps_to_nearest_element() {
    let state = state_with(
        r#"{"ui_elements":[{"type":"button","coords":[40,50,60,70]}],"state":{"active_window":"App"}}"#,
    );
    let action = json(r#"{"action":"mouse_click","button":"left","x":200,"y":200}"#);
    let failed = ActionResult::new("mouse_click").with_error("no effect");
    let step = retry_action(&action, &state, &failed);
    assert_eq!(
        step.ops,
        vec![InputOp::MoveTo(50, 60), InputOp::Button(MouseButton::Left, Direction::Click)]
    );
    assert_eq!(step.result.retry_count, 1);
    assert!(step.result.success);
}

#[test]
fn move_retry_moves_only() {
    let state = state_with(
        r#"{"ui_elements":[{"type":"a","coords":[0,0,10,10]},{"type":"b","coords":[100,100,120,120]}],"state":{}}"#,
    );
    let action = json(r#"{"action":"mouse_move","x":90,"y":90}"#);
    assert_eq!(adjust_action(&action, &state.analysis), vec![InputOp::MoveTo(110, 110)]);
}

#[test]
fn focus_retry_toggles_method_until_ceiling_then_pauses() {
    let mut state = state_with(r#"{"state":{"active_window":"Terminal"}}"#);
    let action = json(r#"{"action":"window_focus","title":"Chrome","class":"c","method":"alt_tab"}"#);
    let mut result = verify_action(&action, &state);
    assert!(!result.success);
    let mut retries = 0;
    while should_retry(&result) {
        let step = retry_action(&action, &state, &result);
        assert_eq!(
            step.ops,
            vec![
                InputOp::Key(Key::Meta, Direction::Press),
                InputOp::Sleep(100),
                InputOp::Key(Key::Tab, Direction::Click),
                InputOp::Sleep(100),
                InputOp::Key(Key::Meta, Direction::Release),
                InputOp::Sleep(500),
            ]
        );
        result = step.result;
        retries += 1;
    }
    assert_eq!(retries, 3);
    assert_eq!(result.retry_count, 3);
    assert!(state.pause_if_exhausted(&result));
    assert_eq!(state.status, "paused");
}

#[test]
fn exhausted_or_successful_results_are_kept() {
    let state = state_with(r#"{"state":{}}"#);
    let action = json(r#"{"action":"key_press","key":"tab"}"#);
    let mut done = ActionResult::new("key_press").with_error("x");
    done.retry_count = 3;
    let step = retry_action(&action, &state, &done);
    assert!(step.ops.is_empty());
    assert_eq!(step.result.retry_count, 3);
    let mut ok = ActionResult::new("key_press").success();
    assert!(!should_retry(&ok));
    ok.retry_count = 0;
    let mut other = TaskState::new();
    assert!(!other.pause_if_exhausted(&ok));
    assert_eq!(other.status, "in_progress");
}

#[test]
fn other_kinds_retry_by_waiting() {
    let state = state_with(r#"{"state":{}}"#);
    let action = json(r#"{"action":"text_input","text":"x"}"#);
    let failed = ActionResult::new("text_input").with_error("x");
    let step = retry_action(&action, &state, &failed);
    assert_eq!(step.ops, vec![InputOp::Sleep(500)]);
    assert_eq!(step.result.retry_count, 1);
}

#[test]
fn centers_round_toward_zero() {
    assert_eq!(center_of(&json(r#"{"coords":[-3,0,0,5]}"#)), Some((-1, 2)));
    assert_eq!(center_of(&json(r#"{"coords":[1,2,3]}"#)), None);
    assert_eq!(center_of(&json(r#"{"coords":[1,2,3,"4"]}"#)), None);
    let big = json(r#"{"coords":[9223372036854775807,0,9223372036854775807,0]}"#);
    assert_eq!(center_of(&big), Some((9223372036854775807, 0)));
}

#[test]
fn nearest_keeps_first_of_equal_distance() {
    let elements = match json(
        r#"[{"coords":[0,0,0,0]},{"coords":[20,0,20,0]},{"coords":[5,5,5,5]},{"bad":1}]"#,
    ) {
        Json::Array(items) => items,
        _ => panic!("array"),
    };
    assert_eq!(nearest_element_center(&elements, 10, 0), Some((5, 5)));
    let pair = match json(r#"[{"coords":[0,0,0,0]},{"coords":[20,0,20,0]}]"#) {
        Json::Array(items) => items,
        _ => panic!("array"),
    };
    assert_eq!(nearest_element_center(&pair, 10, 0), Some((0, 0)));
    assert_eq!(nearest_element_center(&Vec::new(), 10, 0), None);
}

#[test]
fn skipped_verification_is_retried_to_the_ceiling_and_pauses() {
    let mut state = TaskState::new();
    let action = json(r#"{"action":"window_focus","title":"Chrome","class":"c","method":"alt_tab"}"#);
    let result = verify_action(&action, &state);
    assert!(!result.success);
    assert_eq!(result.error_message, None);
    assert!(should_retry(&result));
    let step = retry_action(&action, &state, &result);
    assert_eq!(step.result.retry_count, 1);
    let outcome = retry_until_settled(&action, &mut state, result);
    assert_eq!(outcome.rounds.len(), 3);
    assert_eq!(outcome.result.retry_count, 3);
    assert!(outcome.paused);
    assert_eq!(state.status, "paused");
}

#[test]
fn fresh_result_retry_raises_count() {
    let state = state_with(r#"{"state":{}}"#);
    let action = json(r#"{"action":"wait","ms":1}"#);
    let step = retry_action(&action, &state, &ActionResult::new("wait"));
    assert_eq!(step.result.retry_count, 1);
    assert_eq!(step.result.action_type, "wait");
    assert!(step.result.success);
    assert_eq!(step.ops, vec![InputOp::Sleep(500)]);
}

#[test]
fn settled_retries_stop_at_success_without_pause() {
    let mut state = state_with(
        r#"{"ui_elements":[{"type":"button","coords":[40,50,60,70]}],"state":{"active_window":"App"}}"#,
    );
    let action = json(r#"{"action":"mouse_click","button":"left","x":200,"y":200}"#);
    let failed = ActionResult::new("mouse_click").with_error("no effect");
    let outcome = retry_until_settled(&action, &mut state, failed);
    assert_eq!(
        outcome.rounds,
        vec![vec![InputOp::MoveTo(50, 60), InputOp::Button(MouseButton::Left, Direction::Click)]]
    );
    assert!(outcome.result.success);
    assert_eq!(outcome.result.retry_count, 1);
    assert!(!outcome.paused);
    assert_eq!(state.status, "in_progress");
}

#[test]
fn exhausted_result_is_kept_by_settling() {
    let mut state = state_with(r#"{"state":{"active_window":"Terminal"}}"#);
    let action = json(r#"{"action":"window_focus","title":"Chrome","class":"c","method":"alt_tab"}"#);
    let mut done = ActionResult::new("window_focus").with_error("x");
    done.retry_count = 3;
    let outcome = retry_until_settled(&action, &mut state, done);
    assert!(outcome.rounds.is_empty());
    assert_eq!(outcome.result.error_message.as_deref(), Some("x"));
    assert!(outcome.paused);
}
