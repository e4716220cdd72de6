pub mod cosm_orc;
pub mod deploy;
pub mod error;
pub mod gas_profiler;
