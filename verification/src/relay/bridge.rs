//! The decisions of the export bridge, which copies events selected by the
//! publish rules into the backend relay's database.

use vstd::prelude::*;
use crate::decimal::{decimal, i64_to_decimal, signed_decimal, u64_to_decimal};

verus! {

/// The shortest pause between two export runs, in seconds.
pub const MIN_EXPORT_INTERVAL_SECS: u64 = 5;

/// The views of key/value pairs.
pub open spec fn pair_views(pairs: Seq<(String, String)>) -> Seq<(Seq<char>, Seq<char>)> {
    pairs.map_values(|p: (String, String)| (p.0@, p.1@))
}

/// What the bridge does when it starts.
pub struct BridgeStartup {
    /// The runtime state to record, in order.
    pub state_writes: Vec<(String, String)>,
    /// Whether to start the periodic export.
    pub start_exporting: bool,
}

/// The runtime state recorded at startup for a schema check outcome:
/// `None` when the check failed, else whether the schema is compatible and
/// its version.
pub open spec fn startup_writes(check: Option<(bool, i64)>) -> Seq<(Seq<char>, Seq<char>)> {
    match check {
        Some((true, version)) => seq![
            ("bridge_enabled"@, "true"@),
            ("nrr_schema_version"@, signed_decimal(version as int)),
        ],
        Some((false, version)) => seq![
            ("bridge_enabled"@, "false"@),
            ("nrr_schema_version"@, signed_decimal(version as int)),
        ],
        None => seq![("bridge_enabled"@, "false"@)],
    }
}

/// Decides how the bridge starts from the outcome of the schema check:
/// it exports only when the schema is compatible, and records whether it
/// is enabled and, when the check ran, the schema version.
pub fn plan_bridge_startup(check: Option<(bool, i64)>) -> (p: BridgeStartup)
    ensures
        p.start_exporting == (check matches Some((true, _))),
        pair_views(p.state_writes@) == startup_writes(check),
{
    let mut writes: Vec<(String, String)> = Vec::new();
    let start = match check {
        Some((compatible, version)) => {
            let enabled = if compatible {
                "true".to_owned()
            } else {
                "false".to_owned()
            };
            writes.push(("bridge_enabled".to_owned(), enabled));
            writes.push(("nrr_schema_version".to_owned(), i64_to_decimal(version)));
            compatible
        },
        None => {
            writes.push(("bridge_enabled".to_owned(), "false".to_owned()));
            false
        },
    };
    assert(pair_views(writes@) =~= startup_writes(check));
    BridgeStartup { state_writes: writes, start_exporting: start }
}

/// The pause between export runs: the configured interval, but at least
/// the minimum.
pub fn export_interval_secs(interval_secs: u64) -> (r: u64)
    ensures
        r == if interval_secs < MIN_EXPORT_INTERVAL_SECS {
            MIN_EXPORT_INTERVAL_SECS
        } else {
            interval_secs
        },
{
    if interval_secs < MIN_EXPORT_INTERVAL_SECS {
        MIN_EXPORT_INTERVAL_SECS
    } else {
        interval_secs
    }
}

/// The statement that attaches the dashboard's database, read-only, under
/// the name `nrd`.
pub fn attach_statement(nrd_db: &str) -> (r: String)
    ensures
        r@ == "ATTACH DATABASE 'file:"@ + nrd_db@ + "?mode=ro' AS nrd;"@,
{
    let mut r = "ATTACH DATABASE 'file:".to_owned();
    r.append(nrd_db);
    r.append("?mode=ro' AS nrd;");
    r
}

/// The runtime state recorded after an export run at time `now` (seconds
/// since the epoch) that exported `exported` events.
pub fn export_run_writes(now: i64, exported: u64) -> (w: Vec<(String, String)>)
    ensures
        pair_views(w@) == seq![
            ("last_export_run_at"@, signed_decimal(now as int)),
            ("last_export_count"@, decimal(exported as nat)),
        ],
{
    let mut w: Vec<(String, String)> = Vec::new();
    w.push(("last_export_run_at".to_owned(), i64_to_decimal(now)));
    w.push(("last_export_count".to_owned(), u64_to_decimal(exported)));
    assert(pair_views(w@) =~= seq![
        ("last_export_run_at"@, signed_decimal(now as int)),
        ("last_export_count"@, decimal(exported as nat)),
    ]);
    w
}

/// The runtime state recorded when a local observe run is requested at
/// time `now` (seconds since the epoch).
pub fn observe_run_write(now: i64) -> (w: (String, String))
    ensures
        w.0@ == "last_local_observe_sync_at"@,
        w.1@ == signed_decimal(now as int),
{
    ("last_local_observe_sync_at".to_owned(), i64_to_decimal(now))
}

/// What the periodic export does after one batch: a failed batch is logged
/// and the export goes on at the next tick; nothing stops it.
pub struct AfterBatch {
    pub log_failure: bool,
    pub keep_running: bool,
}

/// Decides on the outcome of one export batch (`true` when it succeeded).
pub fn after_export_batch(succeeded: bool) -> (a: AfterBatch)
    ensures
        a.log_failure == !succeeded,
        a.keep_running,
{
    AfterBatch { log_failure: !succeeded, keep_running: true }
}

/// The time of tick `k` of the periodic export, in seconds after it
/// started: the first tick at once, then one every interval.
pub open spec fn export_tick_secs(interval_secs: u64, k: nat) -> int {
    k * (if interval_secs < MIN_EXPORT_INTERVAL_SECS {
        MIN_EXPORT_INTERVAL_SECS
    } else {
        interval_secs
    }) as int
}

/// The periodic export ticks first at once and then once per interval, so
/// two ticks lie at least the minimum interval apart.
pub proof fn export_ticks_are_spaced(interval_secs: u64, k: nat)
    ensures
        export_tick_secs(interval_secs, 0) == 0,
        export_tick_secs(interval_secs, k + 1) - export_tick_secs(interval_secs, k)
            >= MIN_EXPORT_INTERVAL_SECS,
{
    let p: int = (if interval_secs < MIN_EXPORT_INTERVAL_SECS {
        MIN_EXPORT_INTERVAL_SECS
    } else {
        interval_secs
    }) as int;
    assert((k + 1) * p - k * p == p) by (nonlinear_arith);
}

} // verus!
