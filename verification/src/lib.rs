//! Line ranges of a file ("hunks") and the decisions of the virtual branch
//! controller, with their contracts.

pub mod controller;
pub mod decimal;
pub mod hunk;

pub use controller::{Call, Command, Error, Flow, Operation, Outcome, PushKey, Reply, Step};
pub use hunk::{Hunk, HunkError};
