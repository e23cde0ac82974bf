pub mod admin;
pub mod broker_handler;
pub mod chain;
pub mod process_handler;
pub mod types;
