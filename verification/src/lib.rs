//! Verified core of a disk visualizer and cleanup tool: the decisions, state
//! machines and record-keeping behind scanning, quarantining and deleting.

pub mod error;
pub mod text;
pub mod paths;
pub mod scanner;
pub mod delete;
pub mod scope;
pub mod privileged;
pub mod categories;
pub mod commands;
pub mod index;
pub mod helper;
