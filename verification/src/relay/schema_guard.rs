//! Which schema versions of the backend's database the export bridge
//! accepts.

use vstd::prelude::*;

verus! {

/// Oldest tested schema version of the backend's database.
pub const NRR_SCHEMA_MIN: i64 = 7;

/// Newest tested schema version of the backend's database.
pub const NRR_SCHEMA_MAX: i64 = 15;

/// The outcome of the schema check for a version read from the backend's
/// database: whether it lies in the tested range, and the version itself.
pub fn classify_schema_version(version: i64) -> (r: (bool, i64))
    ensures
        r.0 == (NRR_SCHEMA_MIN <= version <= NRR_SCHEMA_MAX),
        r.1 == version,
{
    if version < NRR_SCHEMA_MIN || version > NRR_SCHEMA_MAX {
        return (false, version);
    }
    (true, version)
}

} // verus!
