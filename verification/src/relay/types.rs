//! The records that the relay administration routes return and accept.

use vstd::prelude::*;

verus! {

/// Whether the backend's database schema is one the export bridge was
/// tested against.
#[derive(Debug)]
pub struct CompatStatus {
    pub bridge_compatible: bool,
    pub schema_version: i64,
    pub supported_range: String,
}

/// Sizes of the databases and the last export run.
#[derive(Debug)]
pub struct RelaySummary {
    pub nrd_db_size_bytes: u64,
    pub nrr_db_size_bytes: u64,
    pub nrr_wal_size_bytes: u64,
    pub last_export_run_at: Option<String>,
    pub last_export_count: Option<String>,
}

/// A request to create or replace an export rule.
#[derive(Debug)]
pub struct CreateRuleRequest {
    pub enabled: Option<bool>,
    pub rule_type: String,
    pub rule_value: String,
    pub kinds_json: Option<String>,
    pub backfill_mode: Option<String>,
}

} // verus!
