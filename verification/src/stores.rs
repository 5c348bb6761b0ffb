//! The shared tables that are read on every request and every TLS handshake.

pub mod certificates;
pub mod path_matcher;
pub mod routes;
pub mod table;
