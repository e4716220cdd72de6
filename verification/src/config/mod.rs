pub mod cfg;
pub mod chain_registry;
pub mod error;
pub mod key;
