use desktop_agent::history::format_iterations_history;

fn iteration(meta: &str, analysis: &str, actions: &str) -> (String, String, String, Option<String>) {
    (meta.to_string(), analysis.to_string(), actions.to_string(), None)
}

#[test]
fn empty_history() {
    assert_eq!(format_iterations_history(&Vec::new()), "No previous iterations available.");
}

#[test]
fn history_lists_complete_iterations() {
    let its = vec![
        iteration(
            r#"{"timestamp":"20250101_120000","instruction":"open mail","status":"in_progress","feedback":"slow"}"#,
            "{\"context\":\"a\"}",
            "[]",
        ),
        iteration(r#"{"timestamp":"t2"}"#, "x", "y"),
        iteration("not json", "x", "y"),
        iteration(r#"{"timestamp":"t3","instruction":"i","status":"done"}"#, "A", "B"),
    ];
    assert_eq!(
        format_iterations_history(&its),
        "Previous iterations:\n\n\
         Iteration 20250101_120000:\nInstruction: open mail\nStatus: in_progress\nFeedback: slow\n\
         Analysis:\n{\"context\":\"a\"}\nActions:\n[]\n\n\
         Iteration t3:\nInstruction: i\nStatus: done\nAnalysis:\nA\nActions:\nB\n\n"
    );
}
