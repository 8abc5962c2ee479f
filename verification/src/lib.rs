//! Command relay for a remote storage network: storage commands are encoded
//! as protobuf messages with a type URL, wrapped in the dispatch envelope
//! that routes them through the account's relay hops, and correlated with
//! their completion by a fixed set of reply tokens.

pub mod adapter;
pub mod command;
pub mod encoder;
pub mod envelope;
pub mod error;
pub mod helpers;
pub mod laws;
pub mod plugin;
pub mod reply;
pub mod response;
pub mod types;
pub mod wire;

pub use command::JackalMsg;
pub use error::UsbError;
