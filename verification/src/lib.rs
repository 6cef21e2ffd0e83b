//! Verified core of a Discord Rich Presence client.

pub mod buffers;
pub mod command;
pub mod errors;
pub mod frame;
pub mod pipe;
pub mod session;
pub mod time;
pub mod types;
pub mod utils;
