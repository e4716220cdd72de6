pub mod command;
pub mod config;
pub mod gas_profiler;
