//! Turning commands into responses and the responses into replies.

pub mod execute_command;
pub mod handle_client;
pub mod handle_primary_probe;
