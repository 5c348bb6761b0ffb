//! The long-lived services that keep the stores up to date.

pub mod discovery;
pub mod letsencrypt;
