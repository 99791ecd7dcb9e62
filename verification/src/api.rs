pub mod adapter;
pub mod aiserver;
pub mod config;
pub mod constant;
pub mod error;
pub mod middleware;
pub mod model;
pub mod route;
pub mod service;
