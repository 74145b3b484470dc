use desktop_agent::actions::executor::{execute_action, plan_action};
use desktop_agent::input::{Direction, InputOp, Key, MouseButton};
use desktop_agent::json::Json;
use desktop_agent::TaskState;

fn json(text: &str) -> Json {
    Json::parse(text).expect("test input parses")
}

#[test]
fn wait_plan_on_fresh_state_logs_one_success() {
    let plan = json(r#"[{"action":"wait","ms":100}]"#);
    let mut state = TaskState::new();
    let items = match &plan {
        Json::Array(items) => items,
        _ => panic!("plan is an array"),
    };
    for action in items {
        assert_eq!(plan_action(action), Ok(vec![InputOp::Sleep(100)]));
        let result = execute_action(action, &mut state, None);
        assert_eq!(result.action_type, "wait");
        assert!(result.success);
    }
    assert_eq!(state.action_results.len(), 1);
    assert_eq!(state.action_results[0].action_type, "wait");
    assert!(state.action_results[0].success);
    assert_eq!(state.attempts, 0);
}

#[test]
fn missing_coordinate_is_named_and_nothing_dispatched() {
    let action = json(r#"{"action":"mouse_move","x":5}"#);
    assert_eq!(plan_action(&action), Err("Missing y for mouse_move action".to_string()));
    let mut state = TaskState::new();
    let result = execute_action(&action, &mut state, None);
    assert!(!result.success);
    assert_eq!(result.error_message.as_deref(), Some("Missing y for mouse_move action"));
    assert_eq!(state.action_results.len(), 1);
}

#[test]
fn missing_focus_parameters_are_named_in_order() {
    let action = json(r#"{"action":"window_focus","title":"Chrome"}"#);
    assert_eq!(plan_action(&action), Err("Missing class for window_focus action".to_string()));
    let action = json(r#"{"action":"window_focus","class":"chrome","method":"alt_tab"}"#);
    assert_eq!(plan_action(&action), Err("Missing title for window_focus action".to_string()));
}

#[test]
fn ill_typed_parameter_counts_as_missing() {
    let action = json(r#"{"action":"wait","ms":"soon"}"#);
    assert_eq!(plan_action(&action), Err("Missing ms for wait action".to_string()));
    let action = json(r#"{"action":"task_done"}"#);
    assert_eq!(plan_action(&action), Err("Missing reason for task_done action".to_string()));
    let action = json(r#"{"action":"key_combination","keys":"ctrl+t"}"#);
    assert_eq!(plan_action(&action), Err("Missing keys for key_combination action".to_string()));
}

#[test]
fn mouse_move_places_pointer_absolutely() {
    let action = json(r#"{"action":"mouse_move","x":-20,"y":4000}"#);
    assert_eq!(plan_action(&action), Ok(vec![InputOp::MoveTo(-20, 4000)]));
}

#[test]
fn mouse_click_buttons() {
    let action = json(r#"{"action":"mouse_click","button":"right"}"#);
    assert_eq!(plan_action(&action), Ok(vec![InputOp::Button(MouseButton::Right, Direction::Click)]));
    let action = json(r#"{"action":"mouse_click","button":"back"}"#);
    assert_eq!(plan_action(&action), Err("Unknown mouse button: back".to_string()));
}

#[test]
fn key_press_ignores_case() {
    let action = json(r#"{"action":"key_press","key":"ENTER"}"#);
    assert_eq!(plan_action(&action), Ok(vec![InputOp::Key(Key::Return, Direction::Click)]));
    let action = json(r#"{"action":"key_press","key":"Escape"}"#);
    assert_eq!(plan_action(&action), Ok(vec![InputOp::Key(Key::Escape, Direction::Click)]));
    let action = json(r#"{"action":"key_press","key":"F5"}"#);
    assert_eq!(plan_action(&action), Err("Unknown key: F5".to_string()));
}

#[test]
fn key_combination_presses_types_and_releases_in_reverse() {
    let action = json(r#"{"action":"key_combination","keys":["Ctrl","shift","T"]}"#);
    assert_eq!(
        plan_action(&action),
        Ok(vec![
            InputOp::Key(Key::Control, Direction::Press),
            InputOp::Key(Key::Shift, Direction::Press),
            InputOp::Sleep(50),
            InputOp::Text("t".to_string()),
            InputOp::Sleep(50),
            InputOp::Key(Key::Shift, Direction::Release),
            InputOp::Key(Key::Control, Direction::Release),
        ])
    );
}

#[test]
fn key_combination_errors() {
    let action = json(r#"{"action":"key_combination","keys":[]}"#);
    assert_eq!(plan_action(&action), Err("No keys provided for combination".to_string()));
    let action = json(r#"{"action":"key_combination","keys":["hyper","t"]}"#);
    assert_eq!(plan_action(&action), Err("Unknown modifier key: hyper".to_string()));
    let action = json(r#"{"action":"key_combination","keys":["ctrl","q"]}"#);
    assert_eq!(plan_action(&action), Err("Unknown key in combination: q".to_string()));
}

#[test]
fn key_combination_skips_non_string_keys() {
    let action = json(r#"{"action":"key_combination","keys":["cmd",7,"v"]}"#);
    assert_eq!(
        plan_action(&action),
        Ok(vec![
            InputOp::Key(Key::Meta, Direction::Press),
            InputOp::Sleep(50),
            InputOp::Text("v".to_string()),
            InputOp::Sleep(50),
            InputOp::Key(Key::Meta, Direction::Release),
        ])
    );
}

#[test]
fn window_focus_methods() {
    let action = json(r#"{"action":"window_focus","title":"a","class":"b","method":"alt_tab"}"#);
    assert_eq!(
        plan_action(&action),
        Ok(vec![
            InputOp::Key(Key::Alt, Direction::Press),
            InputOp::Sleep(100),
            InputOp::Key(Key::Tab, Direction::Click),
            InputOp::Sleep(100),
            InputOp::Key(Key::Alt, Direction::Release),
            InputOp::Sleep(500),
        ])
    );
    let action = json(r#"{"action":"window_focus","title":"a","class":"b","method":"click"}"#);
    assert_eq!(plan_action(&action), Ok(vec![InputOp::Sleep(500)]));
}

#[test]
fn text_input_and_negative_wait() {
    let action = json(r#"{"action":"text_input","text":"google.com"}"#);
    assert_eq!(plan_action(&action), Ok(vec![InputOp::Text("google.com".to_string())]));
    let action = json(r#"{"action":"wait","ms":-5}"#);
    assert_eq!(plan_action(&action), Ok(vec![InputOp::Sleep(0)]));
}

#[test]
fn task_done_ends_the_task() {
    let action = json(r#"{"action":"task_done","reason":"found it"}"#);
    assert_eq!(plan_action(&action), Ok(vec![]));
    let mut state = TaskState::new();
    let result = execute_action(&action, &mut state, None);
    assert!(result.success);
    assert_eq!(state.status, "task_done");
}

#[test]
fn unknown_action_type() {
    let action = json(r#"{"action":"jump"}"#);
    let mut state = TaskState::new();
    let result = execute_action(&action, &mut state, None);
    assert_eq!(result.action_type, "jump");
    assert_eq!(result.error_message.as_deref(), Some("Unknown action type"));
    let action = json(r#"{"x":1}"#);
    let result = execute_action(&action, &mut state, None);
    assert_eq!(result.action_type, "unknown");
    assert!(!result.success);
    assert_eq!(state.status, "in_progress");
}

#[test]
fn injection_failure_is_reported() {
    let action = json(r#"{"action":"text_input","text":"hi"}"#);
    let mut state = TaskState::new();
    let result = execute_action(&action, &mut state, Some("input denied"));
    assert!(!result.success);
    assert_eq!(result.error_message.as_deref(), Some("input denied"));
    assert_eq!(state.action_results.len(), 1);
}
