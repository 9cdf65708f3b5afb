//! Core agent library: action dispatch, keyword planning, step execution,
//! instruction orchestration and JSON-RPC request handling, all in
//! simulation-first form.
pub mod error;
pub mod text;
pub mod params;
pub mod actions;
pub mod planner;
pub mod config;
pub mod perception;
pub mod logging;
pub mod executor;
pub mod orchestrator;
pub mod ipc;
