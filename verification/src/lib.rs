pub mod config;
pub mod orchestrator;
pub mod service;
pub mod sign;
