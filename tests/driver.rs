use desktop_agent::driver::{
    command_of, decide_iteration, last_feedback, parse_command, restart_if_done, Command,
    ConsoleState, Step,
};
use desktop_agent::TaskState;

#[test]
fn commands() {
    assert_eq!(parse_command(" stop \n"), Command::Stop);
    assert_eq!(parse_command("pause"), Command::Pause);
    assert_eq!(parse_command("resume"), Command::Resume);
    assert_eq!(parse_command("help"), Command::Help);
    assert_eq!(parse_command("  open the browser\n"), Command::Instruction("open the browser".to_string()));
    assert_eq!(parse_command("Stop"), Command::Instruction("Stop".to_string()));
}

#[test]
fn done_task_restarts_on_new_instruction() {
    let mut state = TaskState::new();
    state.attempts = 5;
    state.set_task_done();
    let kept = restart_if_done(state, "");
    assert_eq!(kept.status, "task_done");
    assert_eq!(kept.attempts, 5);
    let fresh = restart_if_done(kept, "search the web");
    assert_eq!(fresh.status, "in_progress");
    assert_eq!(fresh.attempts, 0);
    let mut busy = TaskState::new();
    busy.attempts = 2;
    let same = restart_if_done(busy, "other");
    assert_eq!(same.attempts, 2);
}

#[test]
fn iteration_steps() {
    let mut state = TaskState::new();
    state.attempts = 11;
    assert_eq!(decide_iteration(&mut state, "{}"), Step::Pause);
    assert_eq!(state.status, "paused");

    let mut state = TaskState::new();
    state.attempts = 3;
    state.last_action = "wait".to_string();
    let text = "Task completed; Information found; Research complete; Task done";
    assert_eq!(decide_iteration(&mut state, text), Step::Complete);
    assert_eq!(state.status, "completed");

    let mut state = TaskState::new();
    state.set_task_done();
    assert_eq!(decide_iteration(&mut state, "{}"), Step::AwaitInstruction);
    assert_eq!(state.status, "task_done");

    let mut state = TaskState::new();
    assert_eq!(decide_iteration(&mut state, "{}"), Step::Execute);
    assert_eq!(state.status, "in_progress");
}

#[test]
fn feedback_for_refined_instruction() {
    let mut state = TaskState::new();
    assert_eq!(last_feedback(&state), "Task in progress");
    state.feedback = vec!["a".to_string(), "timeout: b".to_string()];
    assert_eq!(last_feedback(&state), "timeout: b");
    state.status = "completed".to_string();
    assert_eq!(last_feedback(&state), "Task completed successfully");
}

#[test]
fn classification_of_trimmed_lines() {
    assert_eq!(command_of("help"), Command::Help);
    assert_eq!(command_of(" help"), Command::Instruction(" help".to_string()));
    assert_eq!(command_of(""), Command::Instruction(String::new()));
}

#[test]
fn console_state_follows_commands() {
    let mut console = ConsoleState::new();
    assert!(console.idle && console.running && console.instruction.is_empty());
    console.apply(Command::Help);
    assert!(console.idle && console.running);
    console.apply(Command::Instruction("open mail".to_string()));
    assert_eq!(console.instruction, "open mail");
    assert!(!console.idle);
    console.apply(Command::Pause);
    assert!(!console.idle && console.running);
    console.apply(Command::Stop);
    assert!(!console.running);
    assert_eq!(console.instruction, "open mail");
}
