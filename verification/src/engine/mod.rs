//! Extraction of the translatable text of a response, and reinsertion of its
//! translation.

pub mod extract;
pub mod frame;
pub mod laws;
pub mod reinsert;
pub mod slot;

pub use extract::{extract, StructuralErr, TextBatch};
pub use reinsert::{reinsert, slot_is_valid, slots_are_valid};
pub use slot::{Field, Slot};
