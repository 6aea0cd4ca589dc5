//! The wire protocol: commands, responses, and their HTTP/JSON encodings.

pub mod command_table;
pub mod response;
pub mod decode;
pub mod encode;
