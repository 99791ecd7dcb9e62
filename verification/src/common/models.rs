pub mod config;
pub mod usage;
