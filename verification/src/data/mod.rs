//! Server state: identifiers, the key-value store, clients and configuration.

pub mod uid;
pub mod db;
pub mod client;
pub mod params;
pub mod replication_config;
pub mod server_config;
pub mod server;
