use desktop_agent::json::Json;
use desktop_agent::response::{
    clean_response, fallback_analysis, parse_analysis, repair_json, strip_leading, strip_trailing,
    trim,
};
use desktop_agent::text::{contains_str, str_eq};

fn challenge_texts(j: &Json) -> Vec<String> {
    j.array_at("challenges")
        .expect("challenges")
        .iter()
        .map(|c| match c {
            Json::Str(s) => s.clone(),
            _ => panic!("string challenge"),
        })
        .collect()
}

#[test]
fn truncated_analysis_is_repaired() {
    let text = r#"{"context":"Editor","ui_elements":[],"state":{"active_window":"Code"},"challenges":[]"#;
    assert!(Json::parse(text).is_none());
    assert_eq!(repair_json(text), format!("{}}}", text));
    let analysis = parse_analysis(text);
    assert_eq!(analysis.str_at("context"), Some("Editor"));
    assert!(challenge_texts(&analysis).is_empty());
}

#[test]
fn truncated_inside_array_is_repaired() {
    let text = r#"{"context":"x","challenges":["slow network""#;
    assert_eq!(repair_json(text), format!("{}]}}", text));
    let analysis = parse_analysis(text);
    assert_eq!(challenge_texts(&analysis), vec!["slow network"]);
}

#[test]
fn unbalanced_analysis_falls_back() {
    for text in [r#"{"context":"x"}}"#, r#"{"context": [}"#, "no json here"] {
        let analysis = parse_analysis(text);
        assert_eq!(analysis.str_at("context"), Some("Error parsing analysis"));
        assert_eq!(challenge_texts(&analysis), vec!["JSON parsing error, possible truncation"]);
    }
}

#[test]
fn fallback_shape() {
    let analysis = fallback_analysis();
    assert_eq!(analysis.array_at("ui_elements").map(|v| v.len()), Some(0));
    let state = analysis.get("state").expect("state");
    assert_eq!(state.str_at("active_window"), Some("unknown"));
    assert_eq!(state.str_at("window_title"), Some("unknown"));
    assert_eq!(state.str_at("window_class"), Some("unknown"));
    assert!(matches!(state.get("target_window"), Some(Json::Null)));
}

#[test]
fn well_formed_analysis_is_kept() {
    let analysis = parse_analysis(r#"{"context":"ok","n":7}"#);
    assert_eq!(analysis.str_at("context"), Some("ok"));
    assert_eq!(analysis.int_at("n"), Some(7));
}

#[test]
fn repair_appends_brackets_then_braces() {
    assert_eq!(repair_json("[{"), "[{]}");
    assert_eq!(repair_json("{}"), "{}");
    assert_eq!(repair_json("]]{"), "]]{}");
}

#[test]
fn fences_are_stripped() {
    assert_eq!(clean_response("```json\n{\"a\":1}\n```"), "{\"a\":1}");
    assert_eq!(clean_response("  ```\n[1]\n```  "), "[1]");
    assert_eq!(clean_response("  plain text \n"), "plain text");
    assert_eq!(clean_response("``````json x ``````"), "json x");
}

#[test]
fn text_helpers() {
    assert!(contains_str("google chrome", "chrome"));
    assert!(contains_str("abc", ""));
    assert!(!contains_str("chr", "chrome"));
    assert!(!contains_str("chrome", "Chrome"));
    assert!(str_eq("tab", "tab"));
    assert!(!str_eq("tab", "tabs"));
}

#[test]
fn strip_repeated_fences() {
    assert_eq!(strip_leading("``````x```", "```"), "x```");
    assert_eq!(strip_trailing("x``````", "```"), "x");
    assert_eq!(strip_leading("abc", ""), "abc");
    assert_eq!(strip_trailing("ab", "abc"), "ab");
}

#[test]
fn unicode_whitespace_is_trimmed() {
    assert_eq!(trim("\u{3000}\t a b \u{2029}\u{85}"), "a b");
    assert_eq!(trim(" \n "), "");
    assert_eq!(trim("x\u{200b}"), "x\u{200b}");
}
