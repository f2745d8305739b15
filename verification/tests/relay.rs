use nerd::db::relay_rules::rules_from_rows;
use nerd::decimal::{i64_to_decimal, u64_to_decimal};
use nerd::relay::bridge::{
    after_export_batch, attach_statement, export_interval_secs, export_run_writes, observe_run_write, plan_bridge_startup,
};
use nerd::relay::manager::{config_hash, retry_delay_secs, wait_step, WaitStep, NRR_WAIT_ATTEMPTS};
use nerd::relay::schema_guard::{classify_schema_version, NRR_SCHEMA_MAX, NRR_SCHEMA_MIN};
use nerd::relay::status::build_summary;
use nerd::relay::types::CreateRuleRequest;
use nerd::routes::relay::{
    authorize, compat_status, database_file_path, ensure_admin, method_of, requires_admin,
    rule_write, Method, RelayRoute,
};

fn pairs(v: &[(String, String)]) -> Vec<(&str, &str)> {
    v.iter().map(|(k, x)| (k.as_str(), x.as_str())).collect()
}

#[test]
fn schema_versions_in_the_tested_range() {
    assert_eq!(classify_schema_version(6), (false, 6));
    assert_eq!(classify_schema_version(NRR_SCHEMA_MIN), (true, 7));
    assert_eq!(classify_schema_version(11), (true, 11));
    assert_eq!(classify_schema_version(NRR_SCHEMA_MAX), (true, 15));
    assert_eq!(classify_schema_version(16), (false, 16));
    assert_eq!(classify_schema_version(-1), (false, -1));
}

#[test]
fn compat_status_names_the_range() {
    let s = compat_status(true, 12);
    assert!(s.bridge_compatible);
    assert_eq!(s.schema_version, 12);
    assert_eq!(s.supported_range, "7-15");
}

#[test]
fn summary_holds_the_given_values() {
    let s = build_summary(10, 20, 30, Some("1700000000".to_string()), None);
    assert_eq!(s.nrd_db_size_bytes, 10);
    assert_eq!(s.nrr_db_size_bytes, 20);
    assert_eq!(s.nrr_wal_size_bytes, 30);
    assert_eq!(s.last_export_run_at.as_deref(), Some("1700000000"));
    assert_eq!(s.last_export_count, None);
}

#[test]
fn bridge_starts_only_on_a_compatible_schema() {
    let ok = plan_bridge_startup(Some((true, 9)));
    assert!(ok.start_exporting);
    assert_eq!(pairs(&ok.state_writes), vec![("bridge_enabled", "true"), ("nrr_schema_version", "9")]);
    let old = plan_bridge_startup(Some((false, 3)));
    assert!(!old.start_exporting);
    assert_eq!(pairs(&old.state_writes), vec![("bridge_enabled", "false"), ("nrr_schema_version", "3")]);
    let failed = plan_bridge_startup(None);
    assert!(!failed.start_exporting);
    assert_eq!(pairs(&failed.state_writes), vec![("bridge_enabled", "false")]);
}

#[test]
fn export_interval_is_at_least_five_seconds() {
    assert_eq!(export_interval_secs(0), 5);
    assert_eq!(export_interval_secs(4), 5);
    assert_eq!(export_interval_secs(5), 5);
    assert_eq!(export_interval_secs(60), 60);
}

#[test]
fn attach_statement_names_the_database() {
    assert_eq!(
        attach_statement("/data/nrd.db"),
        "ATTACH DATABASE 'file:/data/nrd.db?mode=ro' AS nrd;"
    );
}

#[test]
fn export_and_observe_runs_record_their_facts() {
    let w = export_run_writes(1700000000, 42);
    assert_eq!(pairs(&w), vec![("last_export_run_at", "1700000000"), ("last_export_count", "42")]);
    let (k, v) = observe_run_write(-7);
    assert_eq!(k, "last_local_observe_sync_at");
    assert_eq!(v, "-7");
}

#[test]
fn retry_delays_double_up_to_thirty_two_seconds() {
    let delays: Vec<u64> = (0..NRR_WAIT_ATTEMPTS).map(retry_delay_secs).collect();
    assert_eq!(delays, vec![1, 2, 4, 8, 16, 32, 32, 32, 32, 32]);
    assert_eq!(retry_delay_secs(u32::MAX), 32);
}

#[test]
fn config_hash_is_hex_sha256() {
    assert_eq!(
        config_hash(""),
        "e3b0c44298fc1c149afbf4c8996fb92427ae41e4649b934ca495991b7852b855"
    );
    assert_eq!(
        config_hash("abc"),
        "ba7816bf8f01cfea414140de5dae2223b00361a396177a9cb410ff61f20015ad"
    );
    assert_eq!(config_hash("abc"), config_hash("abc"));
    assert_ne!(config_hash("abc"), config_hash("abd"));
}

#[test]
fn rules_from_rows_keep_order_and_read_the_flag() {
    let rows = vec![
        (3, 1, "author".to_string(), "pk".to_string(), None, "future_only".to_string()),
        (2, 0, "kind".to_string(), "1".to_string(), Some("[1]".to_string()), "all".to_string()),
        (1, 7, "event".to_string(), "id".to_string(), None, "x".to_string()),
    ];
    let rules = rules_from_rows(&rows);
    assert_eq!(rules.len(), 3);
    assert_eq!(rules[0].id, 3);
    assert!(rules[0].enabled);
    assert_eq!(rules[0].rule_type, "author");
    assert_eq!(rules[1].id, 2);
    assert!(!rules[1].enabled);
    assert_eq!(rules[1].kinds_json.as_deref(), Some("[1]"));
    assert_eq!(rules[1].backfill_mode, "all");
    assert!(rules[2].enabled);
    assert!(rules_from_rows(&Vec::new()).is_empty());
}

#[test]
fn admin_token_must_match() {
    assert!(ensure_admin(Some("secret"), "secret").is_ok());
    assert_eq!(
        ensure_admin(Some("wrong"), "secret"),
        Err((401, "missing/invalid admin token".to_string()))
    );
    assert_eq!(
        ensure_admin(None, "secret"),
        Err((401, "missing/invalid admin token".to_string()))
    );
    assert!(ensure_admin(Some(""), "secret").is_err());
    assert!(ensure_admin(Some("secret "), "secret").is_err());
}

#[test]
fn rule_requests_fill_in_defaults() {
    let w = rule_write(CreateRuleRequest {
        enabled: None,
        rule_type: "author".to_string(),
        rule_value: "pk".to_string(),
        kinds_json: None,
        backfill_mode: None,
    });
    assert_eq!(w.enabled, 1);
    assert_eq!(w.backfill_mode, "future_only");
    assert_eq!(w.rule_type, "author");
    let w = rule_write(CreateRuleRequest {
        enabled: Some(false),
        rule_type: "kind".to_string(),
        rule_value: "4".to_string(),
        kinds_json: Some("[4]".to_string()),
        backfill_mode: Some("all".to_string()),
    });
    assert_eq!(w.enabled, 0);
    assert_eq!(w.backfill_mode, "all");
    assert_eq!(w.kinds_json.as_deref(), Some("[4]"));
}

#[test]
fn decimal_rendering() {
    assert_eq!(u64_to_decimal(0), "0");
    assert_eq!(u64_to_decimal(10), "10");
    assert_eq!(u64_to_decimal(u64::MAX), u64::MAX.to_string());
    assert_eq!(i64_to_decimal(-1), "-1");
    assert_eq!(i64_to_decimal(i64::MIN), i64::MIN.to_string());
    assert_eq!(i64_to_decimal(i64::MAX), i64::MAX.to_string());
}

#[test]
fn waiting_for_the_backend_stops_after_ten_checks() {
    assert_eq!(wait_step(0, true), WaitStep::Done);
    assert_eq!(wait_step(9, true), WaitStep::Done);
    assert_eq!(wait_step(0, false), WaitStep::RetryAfter(1));
    assert_eq!(wait_step(3, false), WaitStep::RetryAfter(8));
    assert_eq!(wait_step(8, false), WaitStep::RetryAfter(32));
    assert_eq!(wait_step(9, false), WaitStep::GiveUpAfter(32));
    let mut checks = 0;
    let mut attempt = 0;
    loop {
        checks += 1;
        match wait_step(attempt, false) {
            WaitStep::RetryAfter(_) => attempt += 1,
            WaitStep::GiveUpAfter(_) => break,
            WaitStep::Done => unreachable!(),
        }
    }
    assert_eq!(checks, NRR_WAIT_ATTEMPTS);
}

#[test]
fn database_path_drops_the_sqlite_scheme() {
    assert_eq!(database_file_path("sqlite://data/nrd.db"), "data/nrd.db");
    assert_eq!(database_file_path("data/nrd.db"), "data/nrd.db");
    assert_eq!(database_file_path("sqlite://sqlite://x.db"), "x.db");
    assert_eq!(database_file_path("sqlite:/x.db"), "sqlite:/x.db");
    assert_eq!(database_file_path("sqlite://"), "");
    assert_eq!(database_file_path(""), "");
    assert_eq!(database_file_path("/d\u{e9}j\u{e0}/sqlite://x"), "/d\u{e9}j\u{e0}/sqlite://x");
    for url in ["sqlite://a", "sqlite://sqlite://", "xsqlite://a", "sqlite://\u{1f600}.db"] {
        assert_eq!(database_file_path(url), url.trim_start_matches("sqlite://"));
    }
}

#[test]
fn export_goes_on_after_a_failed_batch() {
    let failed = after_export_batch(false);
    assert!(failed.log_failure);
    assert!(failed.keep_running);
    let ok = after_export_batch(true);
    assert!(!ok.log_failure);
    assert!(ok.keep_running);
}

#[test]
fn mutating_routes_need_the_admin_token() {
    let all = [
        RelayRoute::Status,
        RelayRoute::ConfigRead,
        RelayRoute::ConfigUpdate,
        RelayRoute::Compat,
        RelayRoute::Summary,
        RelayRoute::ExportRulesList,
        RelayRoute::ExportRulesCreate,
        RelayRoute::ExportRulesUpdate,
        RelayRoute::ExportRulesDelete,
        RelayRoute::ExportPreview,
        RelayRoute::ExportRun,
        RelayRoute::ObserveRun,
        RelayRoute::Restart,
        RelayRoute::WriterAdd,
        RelayRoute::WriterRemove,
        RelayRoute::Prune,
        RelayRoute::Logs,
    ];
    let open = [
        RelayRoute::Status,
        RelayRoute::Compat,
        RelayRoute::Summary,
        RelayRoute::ExportRulesList,
        RelayRoute::ExportPreview,
    ];
    for route in all {
        if method_of(route) != Method::Get {
            assert!(requires_admin(route));
        }
        assert_eq!(requires_admin(route), !open.contains(&route));
        assert!(authorize(route, Some("tok"), "tok").is_ok());
        let refused = authorize(route, Some("bad"), "tok");
        let missing = authorize(route, None, "tok");
        if requires_admin(route) {
            assert_eq!(refused, Err((401, "missing/invalid admin token".to_string())));
            assert!(missing.is_err());
        } else {
            assert!(refused.is_ok());
            assert!(missing.is_ok());
        }
    }
    assert_eq!(method_of(RelayRoute::ExportRulesUpdate), Method::Put);
    assert_eq!(method_of(RelayRoute::WriterRemove), Method::Delete);
    assert_eq!(method_of(RelayRoute::Prune), Method::Post);
    assert_eq!(method_of(RelayRoute::Logs), Method::Get);
}
