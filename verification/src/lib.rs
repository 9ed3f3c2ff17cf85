//! phi-agent: the verified core of an AI agent runtime framework.
//!
//! The library holds the logic that the agent runtime, its renderers and its
//! command line share: text helpers, session naming rules, context
//! compression planning, event rendering state machines, prompt assembly,
//! configuration resolution and approval strategies.
pub mod bridge;
pub mod cli;
pub mod compression;
pub mod config;
pub mod error;
pub mod event;
pub mod json;
pub mod lines;
pub mod metrics;
pub mod pattern;
pub mod prompt;
pub mod render;
pub mod scaffold;
pub mod screens;
pub mod session;
pub mod text;
