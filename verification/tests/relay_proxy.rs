use std::collections::HashSet;

use nerd::auth_policy::AuthPolicy;
use nerd::relay_proxy::{
    on_backend_frame, on_client_frame, on_client_text, BackendAction, BackendFrame, ClientAction,
    ClientFrame, ClientVerdict, ProxySession,
};

fn policy_with(kinds: &[u16], whitelist_only: bool, read: bool) -> AuthPolicy {
    AuthPolicy {
        global_auth_required: false,
        whitelist_only,
        auth_read_required: read,
        protected_kinds: kinds.iter().copied().collect(),
        whitelisted_pubkeys: Vec::new(),
    }
}

fn refusal(v: ClientVerdict) -> String {
    match v {
        ClientVerdict::Refuse(frame) => frame,
        ClientVerdict::Forward => panic!("forwarded"),
        ClientVerdict::ForwardAuthenticated(pk) => panic!("authenticated {pk}"),
    }
}

#[test]
fn test_event_auth_enforcement() {
    let policy = AuthPolicy {
        global_auth_required: false,
        whitelist_only: false,
        auth_read_required: false,
        protected_kinds: vec![4, 1059].into_iter().collect(),
        whitelisted_pubkeys: Vec::new(),
    };

    let authenticated = ProxySession::new();

    // Should require AUTH for kind 4
    assert!(policy.requires_auth_for_kind(4));
    assert!(!authenticated.contains("testpubkey"));
}

#[test]
fn test_whitelist_enforcement() {
    let mut policy = AuthPolicy {
        global_auth_required: false,
        whitelist_only: true,
        auth_read_required: false,
        protected_kinds: HashSet::new(),
        whitelisted_pubkeys: Vec::new(),
    };

    policy.whitelisted_pubkeys.push("allowed".to_string());

    assert!(policy.is_whitelisted("allowed"));
    assert!(!policy.is_whitelisted("blocked"));
}

#[test]
fn unauthenticated_direct_message_is_refused() {
    let policy = policy_with(&[4, 1059], false, false);
    let mut session = ProxySession::new();
    let text = r#"["EVENT",{"id":"test123","pubkey":"testpubkey","kind":4,"content":"secret message"}]"#;
    let frame = refusal(on_client_text(&policy, &mut session, text));
    assert_eq!(
        frame,
        r#"["OK","test123",false,"auth-required: kind 4 requires authentication"]"#
    );
    assert!(session.is_empty());
}

#[test]
fn unprotected_event_passes() {
    let policy = policy_with(&[4, 1059], false, false);
    let mut session = ProxySession::new();
    let text = r#"["EVENT",{"id":"n1","pubkey":"pk","kind":1,"content":"hello"}]"#;
    assert!(matches!(on_client_text(&policy, &mut session, text), ClientVerdict::Forward));
}

#[test]
fn authenticated_author_may_post_direct_message() {
    let policy = policy_with(&[4], false, false);
    let mut session = ProxySession::new();
    let auth = r#"["AUTH",{"id":"a1","pubkey":"alice","kind":22242,"tags":[["relay","ws://x"],["challenge","c"]]}]"#;
    match on_client_text(&policy, &mut session, auth) {
        ClientVerdict::ForwardAuthenticated(pk) => assert_eq!(pk, "alice"),
        _ => panic!("AUTH not recognised"),
    }
    assert!(session.contains("alice"));
    let dm = r#"["EVENT",{"id":"d1","pubkey":"alice","kind":4}]"#;
    assert!(matches!(on_client_text(&policy, &mut session, dm), ClientVerdict::Forward));
    let other = r#"["EVENT",{"id":"d2","pubkey":"bob","kind":4}]"#;
    assert_eq!(
        refusal(on_client_text(&policy, &mut session, other)),
        r#"["OK","d2",false,"auth-required: kind 4 requires authentication"]"#
    );
}

#[test]
fn auth_with_other_kind_does_not_authenticate() {
    let policy = policy_with(&[4], false, false);
    let mut session = ProxySession::new();
    let auth = r#"["AUTH",{"pubkey":"alice","kind":1}]"#;
    assert!(matches!(on_client_text(&policy, &mut session, auth), ClientVerdict::Forward));
    let no_pubkey = r#"["AUTH",{"kind":22242}]"#;
    assert!(matches!(on_client_text(&policy, &mut session, no_pubkey), ClientVerdict::Forward));
    let challenge_only = r#"["AUTH","challenge-string"]"#;
    assert!(matches!(on_client_text(&policy, &mut session, challenge_only), ClientVerdict::Forward));
    assert!(session.is_empty());
}

#[test]
fn non_whitelisted_author_is_restricted() {
    let mut policy = policy_with(&[], true, false);
    policy.whitelisted_pubkeys.push("friend".to_string());
    let mut session = ProxySession::new();
    let text = r#"["EVENT",{"id":"e9","pubkey":"stranger","kind":1}]"#;
    assert_eq!(
        refusal(on_client_text(&policy, &mut session, text)),
        r#"["OK","e9",false,"restricted: pubkey not whitelisted"]"#
    );
    let unauthenticated = r#"["EVENT",{"id":"e10","pubkey":"friend","kind":1}]"#;
    assert_eq!(
        refusal(on_client_text(&policy, &mut session, unauthenticated)),
        r#"["OK","e10",false,"auth-required: whitelist mode requires authentication"]"#
    );
    let auth = r#"["AUTH",{"pubkey":"friend","kind":22242,"tags":[["relay","r"],["challenge","c"]]}]"#;
    on_client_text(&policy, &mut session, auth);
    assert!(matches!(on_client_text(&policy, &mut session, unauthenticated), ClientVerdict::Forward));
}

#[test]
fn subscription_needs_auth_when_reading_is_closed() {
    let policy = policy_with(&[], false, true);
    let mut session = ProxySession::new();
    let req = r#"["REQ","sub1",{"kinds":[1]}]"#;
    assert_eq!(
        refusal(on_client_text(&policy, &mut session, req)),
        r#"["CLOSED","sub1","auth-required: relay requires authentication"]"#
    );
    let auth = r#"["AUTH",{"pubkey":"carol","kind":22242,"tags":[["relay","ws://relay.example"],["challenge","c1"]]}]"#;
    on_client_text(&policy, &mut session, auth);
    assert!(matches!(on_client_text(&policy, &mut session, req), ClientVerdict::Forward));
}

#[test]
fn subscription_passes_when_reading_is_open() {
    let policy = policy_with(&[4], false, false);
    let mut session = ProxySession::new();
    let req = r#"["REQ","sub1",{}]"#;
    assert!(matches!(on_client_text(&policy, &mut session, req), ClientVerdict::Forward));
}

#[test]
fn refused_subscription_without_id_gets_empty_id() {
    let policy = policy_with(&[], false, true);
    let mut session = ProxySession::new();
    assert_eq!(
        refusal(on_client_text(&policy, &mut session, r#"["REQ"]"#)),
        r#"["CLOSED","","auth-required: relay requires authentication"]"#
    );
}

#[test]
fn text_that_is_not_json_is_forwarded() {
    let policy = policy_with(&[], true, true);
    let mut session = ProxySession::new();
    assert!(matches!(on_client_text(&policy, &mut session, "not json"), ClientVerdict::Forward));
    assert!(matches!(on_client_text(&policy, &mut session, "[\"EVENT\""), ClientVerdict::Forward));
}

#[test]
fn other_message_types_are_forwarded() {
    let policy = policy_with(&[], true, true);
    let mut session = ProxySession::new();
    assert!(matches!(on_client_text(&policy, &mut session, r#"["CLOSE","sub1"]"#), ClientVerdict::Forward));
    assert!(matches!(on_client_text(&policy, &mut session, r#"{"EVENT":1}"#), ClientVerdict::Forward));
    assert!(matches!(on_client_text(&policy, &mut session, r#"[4,"EVENT"]"#), ClientVerdict::Forward));
    assert!(matches!(on_client_text(&policy, &mut session, r#"["EVENT"]"#), ClientVerdict::Forward));
}

#[test]
fn event_kind_is_cut_to_sixteen_bits() {
    let policy = policy_with(&[4], false, false);
    let mut session = ProxySession::new();
    let text = r#"["EVENT",{"id":"x","pubkey":"p","kind":65540}]"#;
    assert_eq!(
        refusal(on_client_text(&policy, &mut session, text)),
        r#"["OK","x",false,"auth-required: kind 4 requires authentication"]"#
    );
}

#[test]
fn missing_or_odd_fields_read_as_defaults() {
    // No kind: read as kind 0; no id: the empty id.
    let policy = policy_with(&[0], false, false);
    let mut session = ProxySession::new();
    let text = r#"["EVENT",{"pubkey":"p","kind":-3}]"#;
    assert_eq!(
        refusal(on_client_text(&policy, &mut session, text)),
        r#"["OK","",false,"auth-required: kind 0 requires authentication"]"#
    );
}

#[test]
fn refusal_frames_escape_the_event_id() {
    let policy = policy_with(&[1059], false, false);
    let mut session = ProxySession::new();
    let text = "[\"EVENT\",{\"id\":\"a\\\"b\\\\c\\nd\\u0001\u{e9}\",\"pubkey\":\"p\",\"kind\":1059}]";
    assert_eq!(
        refusal(on_client_text(&policy, &mut session, text)),
        "[\"OK\",\"a\\\"b\\\\c\\nd\\u0001\u{e9}\",false,\"auth-required: kind 1059 requires authentication\"]"
    );
}

#[test]
fn frames_from_the_client_socket() {
    let policy = policy_with(&[4], false, false);
    let mut session = ProxySession::new();
    assert!(matches!(on_client_frame(&policy, &mut session, &ClientFrame::Close), ClientAction::CloseBackend));
    assert!(matches!(on_client_frame(&policy, &mut session, &ClientFrame::Failed), ClientAction::Stop));
    assert!(matches!(on_client_frame(&policy, &mut session, &ClientFrame::Other), ClientAction::Ignore));
    let text = ClientFrame::Text(r#"["EVENT",{"pubkey":"p","kind":4}]"#.to_string());
    assert!(matches!(
        on_client_frame(&policy, &mut session, &text),
        ClientAction::Deliver(ClientVerdict::Refuse(_))
    ));
}

#[test]
fn frames_from_the_backend_socket() {
    assert!(matches!(on_backend_frame(&BackendFrame::Text("[]".to_string())), BackendAction::PassToClient));
    assert!(matches!(on_backend_frame(&BackendFrame::Close), BackendAction::CloseClient));
    assert!(matches!(on_backend_frame(&BackendFrame::Failed), BackendAction::Stop));
    assert!(matches!(on_backend_frame(&BackendFrame::Other), BackendAction::Ignore));
}

#[test]
fn proxy_agrees_with_can_write() {
    let mut policy = policy_with(&[4, 17], true, false);
    policy.whitelisted_pubkeys.push("w".to_string());
    for authed in [false, true] {
        for pk in ["w", "x"] {
            for kind in [1u16, 4, 17] {
                let mut session = ProxySession::new();
                if authed {
                    let auth = format!(r#"["AUTH",{{"pubkey":"{pk}","kind":22242,"tags":[["relay","r"],["challenge","c"]]}}]"#);
                    on_client_text(&policy, &mut session, &auth);
                }
                let ev = format!(r#"["EVENT",{{"id":"i","pubkey":"{pk}","kind":{kind}}}]"#);
                let forwarded = matches!(on_client_text(&policy, &mut session, &ev), ClientVerdict::Forward);
                assert_eq!(forwarded, policy.can_write(pk, kind, authed));
            }
        }
    }
}

#[test]
fn authentication_persists_across_messages() {
    let policy = policy_with(&[4], false, false);
    let mut session = ProxySession::new();
    on_client_text(&policy, &mut session, r#"["AUTH",{"pubkey":"dave","kind":22242,"tags":[["relay","ws://relay.example"],["challenge","c1"]]}]"#);
    on_client_text(&policy, &mut session, r#"["AUTH",{"pubkey":"dave","kind":1}]"#);
    on_client_text(&policy, &mut session, "garbage");
    on_client_text(&policy, &mut session, r#"["REQ","s"]"#);
    on_client_text(&policy, &mut session, r#"["AUTH",{"pubkey":"erin","kind":22242,"tags":[["relay","ws://relay.example"],["challenge","c1"]]}]"#);
    assert!(session.contains("dave"));
    assert!(session.contains("erin"));
    assert!(!session.contains("frank"));
}

#[test]
fn auth_without_challenge_or_relay_tag_does_not_authenticate() {
    let policy = policy_with(&[4], false, false);
    let mut session = ProxySession::new();
    let cases = [
        r#"["AUTH",{"pubkey":"alice","kind":22242}]"#,
        r#"["AUTH",{"pubkey":"alice","kind":22242,"tags":[["relay","r"]]}]"#,
        r#"["AUTH",{"pubkey":"alice","kind":22242,"tags":[["challenge","c"]]}]"#,
        r#"["AUTH",{"pubkey":"alice","kind":22242,"tags":[["relay"],["challenge","c"]]}]"#,
        r#"["AUTH",{"pubkey":"alice","kind":22242,"tags":[["relay",1],["challenge","c"]]}]"#,
        r#"["AUTH",{"pubkey":"alice","kind":22242,"tags":{"relay":"r","challenge":"c"}}]"#,
    ];
    for text in cases {
        assert!(matches!(on_client_text(&policy, &mut session, text), ClientVerdict::Forward));
    }
    assert!(session.is_empty());
    let valid = r#"["AUTH",{"pubkey":"alice","kind":22242,"tags":[["challenge","c","x"],["p","q"],["relay","r"]]}]"#;
    assert!(matches!(
        on_client_text(&policy, &mut session, valid),
        ClientVerdict::ForwardAuthenticated(_)
    ));
    assert!(session.contains("alice"));
}

#[test]
fn global_auth_closes_subscriptions_until_authenticated() {
    let mut policy = policy_with(&[], false, false);
    policy.global_auth_required = true;
    assert!(policy.requires_auth_for_read());
    let mut session = ProxySession::new();
    let req = r#"["REQ","s9",{}]"#;
    assert_eq!(
        refusal(on_client_text(&policy, &mut session, req)),
        r#"["CLOSED","s9","auth-required: relay requires authentication"]"#
    );
    let auth = r#"["AUTH",{"pubkey":"gina","kind":22242,"tags":[["relay","r"],["challenge","c"]]}]"#;
    on_client_text(&policy, &mut session, auth);
    assert!(matches!(on_client_text(&policy, &mut session, req), ClientVerdict::Forward));
}
