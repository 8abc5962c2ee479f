//! The storage plugin of an account: its messages, its state and what its
//! entry points decide.

pub mod handlers;
pub mod msg;
pub mod replies;
pub mod state;
