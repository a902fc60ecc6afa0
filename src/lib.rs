//! Synchronisation of recorded database changes between environments.

pub mod cli;
pub mod config;
pub mod error;
pub mod names;
pub mod orchestrator;
pub mod recorder;
pub mod rollout;
pub mod selector;
pub mod status;
pub mod text;
pub mod types;
