use desktop_agent::ActionResult;

#[test]
fn result_lifecycle() {
    let mut result = ActionResult::new("mouse_click");
    assert_eq!(result.action_type, "mouse_click");
    assert!(!result.success);
    assert_eq!(result.error_message, None);
    assert_eq!(result.retry_count, 0);
    assert!(result.timestamp > 1_600_000_000);
    result.mark_error("missed");
    assert!(!result.success);
    assert_eq!(result.error_message.as_deref(), Some("missed"));
    result.increment_retry();
    assert_eq!(result.retry_count, 1);
    result.mark_success();
    assert!(result.success);
    assert_eq!(result.error_message.as_deref(), Some("missed"));
    assert_eq!(result.retry_count, 1);
}

#[test]
fn result_builders() {
    let failed = ActionResult::new("wait").with_error("Missing ms");
    assert!(!failed.success);
    assert_eq!(failed.error_message.as_deref(), Some("Missing ms"));
    let ok = failed.success();
    assert!(ok.success);
    assert_eq!(ok.error_message.as_deref(), Some("Missing ms"));
    assert_eq!(ok.action_type, "wait");
    let copy = ok.duplicate();
    assert_eq!(format!("{:?}", copy), format!("{:?}", ok));
}

#[test]
fn result_json_form() {
    let mut result = ActionResult::new("key_press").with_error("Unknown key: f5");
    result.retry_count = 3;
    let back = ActionResult::from_json(&result.to_json()).expect("reads back");
    assert_eq!(format!("{:?}", back), format!("{:?}", result));
}
