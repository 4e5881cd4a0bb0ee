//! Discovery of machines on a local network: the wire messages exchanged
//! between an observer and its peers, the registry of known nodes with its
//! bounded usage history, and the rules that turn incoming responses into
//! registry updates, follow-up requests and evictions.

pub mod address;
pub mod api;
pub mod clock;
pub mod commands;
pub mod constants;
pub mod data_store;
pub mod data_store_service;
pub mod device_info;
pub mod discovery_server;
pub mod json;
pub mod manager_messages;
pub mod scan;
pub mod shared_data;
pub mod target_messages;
pub mod target_server;
pub mod text;
pub mod tools;
pub mod usage;
