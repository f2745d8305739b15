//! The relay summary shown on the dashboard.

use vstd::prelude::*;
use crate::relay::types::RelaySummary;

verus! {

/// Assembles the summary from the sizes of the dashboard's database, the
/// backend's database and the backend's write-ahead log, and the stored
/// facts of the last export run.
pub fn build_summary(
    nrd_db_size_bytes: u64,
    nrr_db_size_bytes: u64,
    nrr_wal_size_bytes: u64,
    last_export_run_at: Option<String>,
    last_export_count: Option<String>,
) -> (s: RelaySummary)
    ensures
        s.nrd_db_size_bytes == nrd_db_size_bytes,
        s.nrr_db_size_bytes == nrr_db_size_bytes,
        s.nrr_wal_size_bytes == nrr_wal_size_bytes,
        s.last_export_run_at == last_export_run_at,
        s.last_export_count == last_export_count,
{
    RelaySummary {
        nrd_db_size_bytes,
        nrr_db_size_bytes,
        nrr_wal_size_bytes,
        last_export_run_at,
        last_export_count,
    }
}

} // verus!
