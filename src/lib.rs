pub mod config;
pub mod handler;
pub mod path;
pub mod responder;
pub mod response;
