pub mod client;
pub mod model;
pub mod models;
pub mod time;
pub mod utils;
