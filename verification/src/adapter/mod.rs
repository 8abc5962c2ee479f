//! The storage adapter: its messages and what its entry points decide.

pub mod handlers;
pub mod msg;
