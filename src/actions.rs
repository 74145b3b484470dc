//! Executing planned actions, judging their effect, and retrying them.
pub mod executor;
pub mod verification;
