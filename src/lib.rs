pub mod backoff;
pub mod config;
pub mod handler;
pub mod mail;
pub mod notify;
pub mod session;
