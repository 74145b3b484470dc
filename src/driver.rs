//! The decisions of the iteration driver: when to start afresh, pause,
//! finish or carry out the plan, and what a console line asks for.
use crate::json::{opt_view, parsed_json, Json, JsonView};
use crate::models::task_state::{completion_due, is_fresh, pause_due, strs};
use crate::models::TaskState;
use crate::response::{trim, trimmed};
use crate::text::str_eq;
use vstd::prelude::*;
use vstd::string::*;

verus! {

/// What the driver does once an iteration is folded into the state.
#[derive(Debug, Clone, Copy, PartialEq, Eq, Structural)]
pub enum Step {
    /// Too many attempts or a loop: pause for a cooldown, then go on.
    Pause,
    /// The task is complete: stop.
    Complete,
    /// The task is done: wait for a new instruction.
    AwaitInstruction,
    /// Carry out the planned actions.
    Execute,
}

/// The step for a state, against the analysis text and what it parses to.
pub open spec fn step_for(ts: TaskState, text: Seq<char>, parsed: Option<JsonView>) -> Step {
    if pause_due(ts.attempts, strs(ts.feedback@)) {
        Step::Pause
    } else if completion_due(ts, text, parsed) {
        Step::Complete
    } else if ts.status@ == "task_done"@ {
        Step::AwaitInstruction
    } else {
        Step::Execute
    }
}

/// `new` is `old` with the status that the step sets: `paused` for a pause,
/// `completed` for completion, unchanged otherwise.
pub open spec fn stepped(old: TaskState, step: Step, new: TaskState) -> bool {
    &&& step == Step::Pause ==> new.status@ == "paused"@
    &&& step == Step::Complete ==> new.status@ == "completed"@
    &&& (step == Step::AwaitInstruction || step == Step::Execute) ==> new.status == old.status
    &&& new.attempts == old.attempts
    &&& new.last_action == old.last_action
    &&& new.success_criteria == old.success_criteria
    &&& new.memory == old.memory
    &&& new.feedback == old.feedback
    &&& new.action_results == old.action_results
    &&& new.analysis == old.analysis
}

/// Decides the step of an iteration given what the analysis text parses to,
/// and records a pause or completion in the status.
pub fn decide_iteration_with(task_state: &mut TaskState, analysis: &str, parsed: &Option<Json>) -> (r:
    Step)
    ensures
        r == step_for(*old(task_state), analysis@, opt_view(*parsed)),
        stepped(*old(task_state), r, *final(task_state)),
{
    if task_state.should_pause() {
        task_state.status = String::from_str("paused");
        Step::Pause
    } else if task_state.is_complete_with(analysis, parsed) {
        task_state.status = String::from_str("completed");
        Step::Complete
    } else if str_eq(task_state.status.as_str(), "task_done") {
        Step::AwaitInstruction
    } else {
        Step::Execute
    }
}

/// Decides the step of an iteration against the analysis text (see
/// `decide_iteration_with`).
pub fn decide_iteration(task_state: &mut TaskState, analysis: &str) -> (r: Step)
    ensures
        r == step_for(*old(task_state), analysis@, parsed_json(analysis@)),
        stepped(*old(task_state), r, *final(task_state)),
{
    let parsed = crate::json::parse_json(analysis);
    decide_iteration_with(task_state, analysis, &parsed)
}

/// A task that is done starts afresh when a new instruction arrives;
/// otherwise the state is kept.
pub fn restart_if_done(task_state: TaskState, instruction: &str) -> (r: TaskState)
    ensures
        task_state.status@ == "task_done"@ && instruction@.len() > 0 ==> is_fresh(r),
        !(task_state.status@ == "task_done"@ && instruction@.len() > 0) ==> r == task_state,
{
    if str_eq(task_state.status.as_str(), "task_done") && instruction.unicode_len() > 0 {
        TaskState::new()
    } else {
        task_state
    }
}

/// A console command.
#[derive(Debug, PartialEq, Eq)]
pub enum Command {
    Stop,
    Pause,
    Resume,
    Help,
    /// Any other line: the new instruction.
    Instruction(String),
}

/// The command that a console line (without surrounding whitespace) names.
pub open spec fn command_kind(line: Seq<char>) -> int {
    if line == "stop"@ {
        0
    } else if line == "pause"@ {
        1
    } else if line == "resume"@ {
        2
    } else if line == "help"@ {
        3
    } else {
        4
    }
}

/// Whether a command is the one that a trimmed console line names.
pub open spec fn names_command(line: Seq<char>, r: Command) -> bool {
    &&& command_kind(line) == 0 <==> r is Stop
    &&& command_kind(line) == 1 <==> r is Pause
    &&& command_kind(line) == 2 <==> r is Resume
    &&& command_kind(line) == 3 <==> r is Help
    &&& command_kind(line) == 4 <==> (r matches Command::Instruction(s) && s@ == line)
}

/// The command that a console line without surrounding whitespace names:
/// `stop`, `pause`, `resume` and `help`, or else a new instruction.
pub fn command_of(line: &str) -> (r: Command)
    ensures
        names_command(line@, r),
{
    if str_eq(line, "stop") {
        Command::Stop
    } else if str_eq(line, "pause") {
        Command::Pause
    } else if str_eq(line, "resume") {
        Command::Resume
    } else if str_eq(line, "help") {
        Command::Help
    } else {
        Command::Instruction(String::from_str(line))
    }
}

/// Reads a console line: surrounding whitespace is dropped, then the line
/// names a command or a new instruction.
pub fn parse_command(line: &str) -> (r: Command)
    ensures
        names_command(trimmed(line@), r),
{
    command_of(trim(line))
}

/// What the driver knows from the console: the current instruction,
/// whether it waits for one, and whether it should go on.
#[derive(Debug)]
pub struct ConsoleState {
    pub instruction: String,
    pub idle: bool,
    pub running: bool,
}

impl ConsoleState {
    /// Running and idle, with no instruction yet.
    pub fn new() -> (r: ConsoleState)
        ensures
            r.instruction@.len() == 0,
            r.idle,
            r.running,
    {
        ConsoleState { instruction: String::new(), idle: true, running: true }
    }

    /// Applies a console command: `stop` ends the run, an instruction
    /// replaces the current one and ends idling, any other command changes
    /// nothing.
    pub fn apply(&mut self, command: Command)
        ensures
            match command {
                Command::Stop => {
                    &&& !final(self).running
                    &&& final(self).idle == old(self).idle
                    &&& final(self).instruction == old(self).instruction
                },
                Command::Instruction(t) => {
                    &&& final(self).instruction@ == t@
                    &&& !final(self).idle
                    &&& final(self).running == old(self).running
                },
                _ => *final(self) == *old(self),
            },
    {
        match command {
            Command::Stop => {
                self.running = false;
            },
            Command::Instruction(t) => {
                self.instruction = t;
                self.idle = false;
            },
            _ => {},
        }
    }
}

/// The feedback that a refined instruction is asked to address.
pub open spec fn feedback_summary(ts: TaskState) -> Seq<char> {
    if ts.status@ == "completed"@ {
        "Task completed successfully"@
    } else if ts.feedback@.len() > 0 {
        ts.feedback@.last()@
    } else {
        "Task in progress"@
    }
}

/// The feedback that a refined instruction is asked to address: success,
/// the most recent feedback entry, or that the task is in progress.
pub fn last_feedback(task_state: &TaskState) -> (r: String)
    ensures
        r@ == feedback_summary(*task_state),
{
    if str_eq(task_state.status.as_str(), "completed") {
        String::from_str("Task completed successfully")
    } else if task_state.feedback.len() > 0 {
        task_state.feedback[task_state.feedback.len() - 1].clone()
    } else {
        String::from_str("Task in progress")
    }
}

} // verus!
