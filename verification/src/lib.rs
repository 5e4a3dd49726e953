//! A thin generic runtime between a language model and a workflow engine.
//!
//! A program made with it names its own states and events. A registry maps each pair of them to
//! a prompt, a context builder turns the recent events into context text, a policy says which
//! tools may run in a state, and a runner puts the four together for one step of the program.

use vstd::prelude::*;

pub mod context_builder;
pub mod graph_builder;
pub mod graph_flow_adapter;
pub mod kernel;
pub mod laws;
pub mod paths;
pub mod persistence;
pub mod policy;
pub mod prompt_map;
pub mod prompt_registry;
pub mod qa;
pub mod replay;
pub mod rig_adapter;
pub mod runtime;
mod show;
pub mod text;
pub mod tool_set;
pub mod workflow;

pub use crate::kernel::{Event, FormeError, PromptKey, State, ToolId};
pub use crate::runtime::Runner;

verus! {

/// The version of the library.
pub const VERSION: &'static str = "0.1.0";

} // verus!
