pub mod cache;

pub mod error_handler;
