pub mod logs;
pub mod profile;
