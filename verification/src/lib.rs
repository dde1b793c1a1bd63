pub mod channel;
pub mod error;
pub mod function;
pub mod service;
pub mod session;
