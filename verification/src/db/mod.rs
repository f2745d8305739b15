//! Records read from the dashboard's database.

pub mod relay_rules;
