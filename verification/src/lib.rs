//! An interpreter for workflows written in the Amazon States Language.
//!
//! A definition is a graph of states. An execution walks it one state per
//! step, hands tasks and pauses to a host, and reports each step.

pub mod decode;
pub mod error_handling;
pub mod execution;
pub mod glob;
pub mod handlers;
pub mod intrinsic_functions;
pub mod itertools_utils;
pub mod json;
pub mod number;
pub mod payload;
pub mod state_machine;
pub mod states;
pub mod text;
pub mod types;
