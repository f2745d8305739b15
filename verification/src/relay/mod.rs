//! The export bridge to the local relay backend, and its supervision.

pub mod bridge;
pub mod manager;
pub mod schema_guard;
pub mod status;
pub mod types;
