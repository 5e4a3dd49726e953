//! What the operations come to, told by what is handed in and what comes back.
//!
//! Each law speaks of calls: of every result that a call may have on its arguments, and of how the
//! results of two calls belong together.

pub mod checks;
pub mod graphs;
pub mod keys;
pub mod prompts;
pub mod steps;
pub mod tasks;
pub mod tools;
