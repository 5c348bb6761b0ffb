//! Control plane of a TLS-terminating reverse proxy: the routing table, the
//! certificate store and the bookkeeping of automated certificate issuance.

pub mod address;
pub mod config;
pub mod proxy_server;
pub mod services;
pub mod storage;
pub mod stores;
pub mod text;

pub use storage::Storage;
