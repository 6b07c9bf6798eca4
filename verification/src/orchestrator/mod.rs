//! The orchestrator: it decides, stage by stage, what is asked of the
//! translation service and of the assistant, and what becomes of their
//! answers.

pub mod laws;
pub mod machine;
pub mod model;

pub use machine::{Action, Event, Orchestrator, Outcome, Params};
pub use model::{Retries, Stage};
