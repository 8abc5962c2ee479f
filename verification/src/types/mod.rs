//! The storage network's transaction messages, one struct per message, each
//! with its protobuf layout.

pub mod filetree;
pub mod storage;
