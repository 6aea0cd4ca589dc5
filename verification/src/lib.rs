//! A small key-value server library: the request protocol, the command
//! executor and the in-memory state behind it.

pub mod error;
pub mod data;
pub mod outside;
pub mod text;
pub mod protocol;
pub mod machine;
pub mod properties;
pub mod command_properties;
