//! An event-driven pipeline: collectors produce events onto a broadcast bus,
//! strategies turn events into actions on a second bus, and executors carry
//! the actions out. This crate holds the verified part of the engine (its
//! builder, its startup sequence and the decisions of its receive loops), the
//! combinators that adapt components to sum-typed buses, and the message
//! formatting of the chat dispatcher.

pub mod action_submitter;
pub mod collector;
pub mod engine;
pub mod executor;
pub mod telegram_message;
pub mod types;

pub use engine::Engine;
pub use types::{ActionSubmitter, CollectorFilterMap, CollectorMap, ExecutorMap};
