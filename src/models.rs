//! The records the agent keeps: the outcome of each action and the state of
//! the task across iterations.
pub mod action_result;
pub mod record;
pub mod task_state;

pub use action_result::ActionResult;
pub use task_state::TaskState;
