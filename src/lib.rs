//! A desktop automation agent: it reads a screen analysis and an action
//! plan produced by a language model, turns each planned action into input
//! operations, judges whether it took effect, retries it with adjusted
//! parameters, and keeps the task's state between iterations.
pub mod actions;
pub mod driver;
pub mod history;
pub mod input;
pub mod json;
pub mod models;
pub mod response;
pub mod text;

pub use models::{ActionResult, TaskState};
