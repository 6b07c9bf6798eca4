//! A gateway between a user who writes in one language and a conversational
//! assistant that understands another.
//!
//! For each request the [`orchestrator`] decides whether the message is
//! translated on its way in, how often a failed call is tried again, and
//! whether the assistant's response is translated on its way out. The
//! [`engine`] finds every text of a response that a user gets to read and
//! puts the translations back in the same places. [`wlt`] and [`wa`] hold
//! what is sent to and received from the translation service and the
//! assistant; [`config`] makes the settings, and [`report`] the line that is
//! printed at the end.
//!
//! The crate performs no call over the network. It says what is to be
//! called and takes the outcome as a value.

pub mod config;
pub mod dict;
pub mod engine;
pub mod orchestrator;
pub mod report;
pub mod text;
pub mod utils;
pub mod wa;
pub mod wlt;
