pub mod commands;
pub mod config;
pub mod lifecycle;
pub mod orchestrator;
pub mod models;
pub mod staleness;
pub mod utils;
