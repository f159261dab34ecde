//! The heart-rate monitor daemon's rules: the measurement parser, the
//! scanner's state and decisions, and the requests of its two servers.

pub mod config;
pub mod debug_server;
pub mod scanner;
pub mod server;
