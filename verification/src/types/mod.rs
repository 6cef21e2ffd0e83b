//! The activity model: what a presence shows, how it is built, and what is sent.

pub mod activity;
pub mod builder;
pub mod data;
pub mod payloads;
