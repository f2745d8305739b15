//! Policy and bookkeeping logic of a personal archival Nostr relay.

pub mod auth_policy;
pub mod config;
pub mod db;
pub mod decimal;
pub mod json;
pub mod proxy_connection;
pub mod relay;
pub mod relay_proxy;
pub mod routes;
pub mod text;
