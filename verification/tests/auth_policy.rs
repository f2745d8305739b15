use std::collections::HashSet;

use nerd::auth_policy::{setting_enabled, AuthPolicy, AuthPolicyUpdate, PolicySettings};

fn open_policy() -> AuthPolicy {
    AuthPolicy {
        global_auth_required: false,
        whitelist_only: false,
        auth_read_required: false,
        protected_kinds: HashSet::new(),
        whitelisted_pubkeys: Vec::new(),
    }
}

fn settings(
    global: Option<&str>,
    whitelist: Option<&str>,
    read: Option<&str>,
    kind_1: Option<&str>,
    kind_0: Option<&str>,
) -> PolicySettings {
    PolicySettings {
        global_auth_required: global.map(|s| s.to_string()),
        whitelist_only: whitelist.map(|s| s.to_string()),
        auth_read_required: read.map(|s| s.to_string()),
        auth_kind_1: kind_1.map(|s| s.to_string()),
        auth_kind_0: kind_0.map(|s| s.to_string()),
    }
}

#[test]
fn test_always_protected_kinds() {
    let mut policy = open_policy();

    // Add always-protected kinds
    policy.protected_kinds.insert(4);
    policy.protected_kinds.insert(1059);
    policy.protected_kinds.insert(17);

    assert!(policy.requires_auth_for_kind(4), "DMs should always require AUTH");
    assert!(policy.requires_auth_for_kind(1059), "Gift Wrap should always require AUTH");
    assert!(policy.requires_auth_for_kind(17), "Private DMs should always require AUTH");
    assert!(!policy.requires_auth_for_kind(1), "Text notes should not require AUTH by default");
}

#[test]
fn test_whitelist_mode() {
    let mut policy = open_policy();
    policy.whitelist_only = true;

    policy.whitelisted_pubkeys.push("test_pubkey".to_string());

    assert!(policy.is_whitelisted("test_pubkey"), "Whitelisted pubkey should pass");
    assert!(!policy.is_whitelisted("other_pubkey"), "Non-whitelisted pubkey should fail");
}

#[test]
fn test_can_write() {
    let mut policy = open_policy();

    policy.protected_kinds.insert(4);

    // Should allow writing kind 1 without auth
    assert!(policy.can_write("test_pubkey", 1, false));

    // Should deny writing kind 4 without auth
    assert!(!policy.can_write("test_pubkey", 4, false));

    // Should allow writing kind 4 with auth
    assert!(policy.can_write("test_pubkey", 4, true));
}

#[test]
fn settings_policy_always_protects_private_kinds() {
    let policy = AuthPolicy::from_settings(&settings(None, None, None, None, None), &Vec::new());
    assert!(policy.requires_auth_for_kind(4));
    assert!(policy.requires_auth_for_kind(17));
    assert!(policy.requires_auth_for_kind(1059));
    assert!(!policy.requires_auth_for_kind(1));
    assert!(!policy.requires_auth_for_kind(0));
    assert!(!policy.requires_auth_for_kind(7));
    assert!(!policy.global_auth_required);
    assert!(!policy.whitelist_only);
    assert!(!policy.requires_auth_for_read());
    assert_eq!(policy.protected_kinds.len(), 3);
}

#[test]
fn settings_policy_reads_each_switch() {
    let policy = AuthPolicy::from_settings(
        &settings(Some("TRUE"), Some("1"), Some("True"), Some("tRuE"), Some("1")),
        &Vec::new(),
    );
    assert!(policy.global_auth_required);
    assert!(policy.whitelist_only);
    assert!(policy.requires_auth_for_read());
    assert!(policy.protected_kinds.contains(&1));
    assert!(policy.protected_kinds.contains(&0));
    assert_eq!(policy.protected_kinds.len(), 5);

    let off = AuthPolicy::from_settings(
        &settings(Some("yes"), Some("0"), Some("false"), Some(" true"), Some("11")),
        &Vec::new(),
    );
    assert!(!off.global_auth_required);
    assert!(!off.whitelist_only);
    assert!(!off.auth_read_required);
    assert!(!off.protected_kinds.contains(&1));
    assert!(!off.protected_kinds.contains(&0));
}

#[test]
fn setting_values_that_switch_on() {
    assert!(setting_enabled(&Some("true".to_string())));
    assert!(setting_enabled(&Some("TRUE".to_string())));
    assert!(setting_enabled(&Some("TrUe".to_string())));
    assert!(setting_enabled(&Some("1".to_string())));
    assert!(!setting_enabled(&Some("".to_string())));
    assert!(!setting_enabled(&Some("truee".to_string())));
    assert!(!setting_enabled(&Some("on".to_string())));
    assert!(!setting_enabled(&Some("01".to_string())));
    assert!(!setting_enabled(&Some("tr\u{fc}e".to_string())));
    assert!(!setting_enabled(&None));
}

#[test]
fn settings_policy_keeps_each_whitelisted_pubkey_once() {
    let list = vec!["aa".to_string(), "bb".to_string(), "aa".to_string()];
    let policy = AuthPolicy::from_settings(&settings(None, Some("true"), None, None, None), &list);
    assert_eq!(policy.whitelisted_pubkeys, vec!["aa".to_string(), "bb".to_string()]);
    let list = vec!["cc".to_string(), "aa".to_string(), "cc".to_string(), "bb".to_string(), "aa".to_string()];
    let ordered = AuthPolicy::from_settings(&settings(None, None, None, None, None), &list);
    assert_eq!(
        ordered.whitelisted_pubkeys,
        vec!["cc".to_string(), "aa".to_string(), "bb".to_string()]
    );
    assert!(policy.is_whitelisted("aa"));
    assert!(policy.is_whitelisted("bb"));
    assert!(!policy.is_whitelisted("cc"));
}

#[test]
fn global_auth_protects_every_kind_example() {
    let mut policy = open_policy();
    policy.global_auth_required = true;
    for kind in [0u16, 1, 7, 30023, 65535] {
        assert!(policy.requires_auth_for_kind(kind));
        assert!(!policy.can_write("pk", kind, false));
        assert!(policy.can_write("pk", kind, true));
    }
}

#[test]
fn whitelist_off_admits_every_pubkey() {
    let policy = open_policy();
    assert!(policy.is_whitelisted("anyone"));
    assert!(policy.is_whitelisted(""));
}

#[test]
fn whitelist_refuses_authenticated_outsider() {
    let mut policy = open_policy();
    policy.whitelist_only = true;
    policy.whitelisted_pubkeys.push("friend".to_string());
    assert!(!policy.can_write("stranger", 1, true));
    assert!(!policy.can_write("friend", 1, false));
    assert!(policy.can_write("friend", 1, true));
    policy.protected_kinds.insert(1);
    assert!(!policy.can_write("friend", 1, false));
    assert!(policy.can_write("friend", 1, true));
}

#[test]
fn stored_update_reads_back_as_the_same_policy() {
    for bits in 0u8..32 {
        let update = AuthPolicyUpdate {
            global_auth_required: bits & 1 != 0,
            whitelist_only: bits & 2 != 0,
            auth_read_required: bits & 4 != 0,
            auth_kind_0: bits & 8 != 0,
            auth_kind_1: bits & 16 != 0,
        };
        let stored = update.to_settings();
        assert_eq!(stored.global_auth_required.as_deref(), Some(if bits & 1 != 0 { "true" } else { "false" }));
        let policy = AuthPolicy::from_settings(&stored, &Vec::new());
        assert_eq!(policy.global_auth_required, update.global_auth_required);
        assert_eq!(policy.whitelist_only, update.whitelist_only);
        assert_eq!(policy.auth_read_required, update.auth_read_required);
        assert_eq!(policy.protected_kinds.contains(&0), update.auth_kind_0);
        assert_eq!(policy.protected_kinds.contains(&1), update.auth_kind_1);
        assert!(policy.protected_kinds.contains(&4));
        assert!(policy.protected_kinds.contains(&17));
        assert!(policy.protected_kinds.contains(&1059));
    }
}

#[test]
fn reading_needs_auth_with_read_protection_or_global_auth() {
    let mut policy = open_policy();
    assert!(!policy.requires_auth_for_read());
    policy.auth_read_required = true;
    assert!(policy.requires_auth_for_read());
    policy.auth_read_required = false;
    policy.global_auth_required = true;
    assert!(policy.requires_auth_for_read());
}

#[test]
fn cloned_policy_keeps_everything() {
    let mut policy = open_policy();
    policy.global_auth_required = true;
    policy.auth_read_required = true;
    policy.protected_kinds.insert(4);
    policy.protected_kinds.insert(1059);
    policy.whitelisted_pubkeys.push("a".to_string());
    policy.whitelisted_pubkeys.push("b".to_string());
    let copy = policy.clone();
    assert_eq!(copy.global_auth_required, true);
    assert_eq!(copy.whitelist_only, false);
    assert_eq!(copy.auth_read_required, true);
    assert_eq!(copy.protected_kinds, policy.protected_kinds);
    assert_eq!(copy.whitelisted_pubkeys, policy.whitelisted_pubkeys);
}
