pub mod gas_profiler;
pub mod profiler;
