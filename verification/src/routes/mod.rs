//! The decisions behind the HTTP administration routes.

pub mod relay;
