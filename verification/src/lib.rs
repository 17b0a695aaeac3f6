//! Multi-agent orchestration core: discovery and loading of agent, team and
//! workflow definitions from a project configuration tree, per-step session
//! configuration, and the state machines that drive workflow execution,
//! team routing and the UI event plumbing around them.

pub mod agents;
pub mod compose;
pub mod config;
pub mod discovery;
pub mod dispatch;
pub mod errors;
pub mod listing;
pub mod login;
pub mod paths;
pub mod pump;
pub mod router;
pub mod runner;
pub mod scaffold;
pub mod scheduler;
pub mod strmap;
pub mod strutil;
pub mod supervisor;
pub mod viewport;
pub mod workflows;
