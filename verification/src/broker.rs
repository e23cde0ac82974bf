pub mod chain;
pub mod types;
pub mod worker;
pub mod user;
pub mod admin;
pub mod http;
