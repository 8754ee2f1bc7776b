use egress_agent::agent::FirewallAgent;
use egress_agent::config::ConfigError;
use egress_agent::engine::{evaluate, ConnectionAttempt, DenyReason, Mismatch, Verdict};
use egress_agent::ip::IpAddress;
use egress_agent::rule::FirewallRule;
use egress_agent::store::RuleStore;

fn strings(items: &[&str]) -> Vec<String> {
    items.iter().map(|s| s.to_string()).collect()
}

fn mail_rule() -> FirewallRule {
    FirewallRule::new(
        "mail".to_string(),
        strings(&["smtp.example.com"]),
        vec![IpAddress::v4(203, 0, 113, 5)],
        strings(&["smtps"]),
    )
}

#[test]
fn v4_packs_octets_big_endian() {
    assert_eq!(IpAddress::v4(203, 0, 113, 5), IpAddress::V4(0xCB00_7105));
    assert_eq!(IpAddress::v4(0, 0, 0, 1), IpAddress::V4(1));
    assert_eq!(IpAddress::v4(255, 255, 255, 255), IpAddress::V4(u32::MAX));
}

#[test]
fn mail_scenario_allowed_then_protocol_mismatch() {
    let mut store = RuleStore::new();
    assert_eq!(store.upsert(mail_rule()), Ok(()));
    let ok = ConnectionAttempt::new("mail", "smtp.example.com", IpAddress::v4(203, 0, 113, 5), "smtps");
    assert_eq!(evaluate(&store, &ok), Verdict::Allowed);
    let bad = ConnectionAttempt::new("mail", "smtp.example.com", IpAddress::v4(203, 0, 113, 5), "smtp");
    assert_eq!(
        evaluate(&store, &bad),
        Verdict::Denied(DenyReason::RuleMismatch(Mismatch { domain: false, ip: false, protocol: true }))
    );
}

#[test]
fn every_failing_dimension_is_reported() {
    let mut store = RuleStore::new();
    store.upsert(mail_rule()).unwrap();
    let a = ConnectionAttempt::new("mail", "evil.example", IpAddress::v4(10, 0, 0, 1), "smtps");
    assert_eq!(
        evaluate(&store, &a),
        Verdict::Denied(DenyReason::RuleMismatch(Mismatch { domain: true, ip: true, protocol: false }))
    );
    let b = ConnectionAttempt::new("mail", "evil.example", IpAddress::v4(10, 0, 0, 1), "ftp");
    assert_eq!(
        evaluate(&store, &b),
        Verdict::Denied(DenyReason::RuleMismatch(Mismatch { domain: true, ip: true, protocol: true }))
    );
}

#[test]
fn protocol_match_is_case_sensitive() {
    let mut store = RuleStore::new();
    store.upsert(mail_rule()).unwrap();
    let a = ConnectionAttempt::new("mail", "smtp.example.com", IpAddress::v4(203, 0, 113, 5), "SMTPS");
    assert!(!evaluate(&store, &a).is_allowed());
}

#[test]
fn empty_ip_list_denies_every_address() {
    let mut store = RuleStore::new();
    let rule = FirewallRule::new("mail".to_string(), strings(&["smtp.example.com"]), vec![], strings(&["smtps"]));
    store.upsert(rule).unwrap();
    for ip in [IpAddress::v4(203, 0, 113, 5), IpAddress::v4(0, 0, 0, 0), IpAddress::V6(1), IpAddress::V6(u128::MAX)] {
        let a = ConnectionAttempt::new("mail", "smtp.example.com", ip, "smtps");
        assert_eq!(
            evaluate(&store, &a),
            Verdict::Denied(DenyReason::RuleMismatch(Mismatch { domain: false, ip: true, protocol: false }))
        );
    }
}

#[test]
fn unknown_app_is_denied() {
    let mut store = RuleStore::new();
    let empty = ConnectionAttempt::new("mail", "smtp.example.com", IpAddress::v4(203, 0, 113, 5), "smtps");
    assert_eq!(evaluate(&store, &empty), Verdict::Denied(DenyReason::UnknownApp));
    store.upsert(mail_rule()).unwrap();
    let other = ConnectionAttempt::new("web", "smtp.example.com", IpAddress::v4(203, 0, 113, 5), "smtps");
    assert_eq!(evaluate(&store, &other), Verdict::Denied(DenyReason::UnknownApp));
}

#[test]
fn upsert_replaces_rule_whole() {
    let mut store = RuleStore::new();
    store.upsert(mail_rule()).unwrap();
    let replacement = FirewallRule::new(
        "mail".to_string(),
        strings(&["imap.example.com"]),
        vec![IpAddress::v4(198, 51, 100, 7)],
        strings(&["imaps"]),
    );
    store.upsert(replacement.clone()).unwrap();
    assert_eq!(store.len(), 1);
    assert_eq!(store.get(&"mail".to_string()), Some(replacement));
    let old = ConnectionAttempt::new("mail", "smtp.example.com", IpAddress::v4(203, 0, 113, 5), "smtps");
    assert_eq!(
        evaluate(&store, &old),
        Verdict::Denied(DenyReason::RuleMismatch(Mismatch { domain: true, ip: true, protocol: true }))
    );
    let new = ConnectionAttempt::new("mail", "imap.example.com", IpAddress::v4(198, 51, 100, 7), "imaps");
    assert_eq!(evaluate(&store, &new), Verdict::Allowed);
}

#[test]
fn upsert_rejects_empty_app_name_and_keeps_store() {
    let mut store = RuleStore::new();
    store.upsert(mail_rule()).unwrap();
    let bad = FirewallRule::new(String::new(), strings(&["x"]), vec![], strings(&["y"]));
    assert_eq!(store.upsert(bad), Err(ConfigError::EmptyAppName));
    assert_eq!(store.len(), 1);
    assert_eq!(store.get(&"mail".to_string()), Some(mail_rule()));
}

#[test]
fn remove_unknown_is_noop_and_remove_known_deletes() {
    let mut store = RuleStore::new();
    store.upsert(mail_rule()).unwrap();
    store.remove(&"web".to_string());
    assert_eq!(store.len(), 1);
    store.remove(&"mail".to_string());
    assert_eq!(store.len(), 0);
    assert!(!store.contains(&"mail".to_string()));
    assert_eq!(store.get(&"mail".to_string()), None);
}

#[test]
fn get_returns_independent_snapshot() {
    let mut store = RuleStore::new();
    store.upsert(mail_rule()).unwrap();
    let snap = store.get(&"mail".to_string()).unwrap();
    store.remove(&"mail".to_string());
    assert_eq!(snap, mail_rule());
}

#[test]
fn several_apps_keep_separate_rules() {
    let mut store = RuleStore::new();
    store.upsert(mail_rule()).unwrap();
    store
        .upsert(FirewallRule::new("web".to_string(), strings(&["a.example"]), vec![IpAddress::V6(42)], strings(&["https"])))
        .unwrap();
    store.upsert(FirewallRule::new("dns".to_string(), strings(&["ns"]), vec![IpAddress::v4(9, 9, 9, 9)], strings(&["udp"]))).unwrap();
    assert_eq!(store.len(), 3);
    store.remove(&"web".to_string());
    assert_eq!(store.len(), 2);
    let a = ConnectionAttempt::new("dns", "ns", IpAddress::v4(9, 9, 9, 9), "udp");
    assert_eq!(evaluate(&store, &a), Verdict::Allowed);
    let b = ConnectionAttempt::new("web", "a.example", IpAddress::V6(42), "https");
    assert_eq!(evaluate(&store, &b), Verdict::Denied(DenyReason::UnknownApp));
}

#[test]
fn agent_check_connection_logs_each_decision() {
    let mut agent = FirewallAgent::new();
    agent.upsert_rule(mail_rule()).unwrap();
    assert!(agent.check_connection("mail", "smtp.example.com", IpAddress::v4(203, 0, 113, 5), "smtps", 10));
    assert!(!agent.check_connection("mail", "smtp.example.com", IpAddress::v4(203, 0, 113, 5), "smtp", 11));
    assert!(!agent.check_connection("web", "a.example", IpAddress::V6(1), "https", 12));
    let logs = agent.collect_logs();
    assert_eq!(logs.len(), 3);
    assert_eq!(logs[0].timestamp, 10);
    assert_eq!(logs[0].verdict, Verdict::Allowed);
    assert_eq!(logs[0].app_name, "mail");
    assert_eq!(logs[0].domain, "smtp.example.com");
    assert_eq!(logs[0].ip, IpAddress::v4(203, 0, 113, 5));
    assert_eq!(logs[0].protocol, "smtps");
    assert_eq!(
        logs[1].verdict,
        Verdict::Denied(DenyReason::RuleMismatch(Mismatch { domain: false, ip: false, protocol: true }))
    );
    assert_eq!(logs[2].verdict, Verdict::Denied(DenyReason::UnknownApp));
    assert!(agent.collect_logs().is_empty());
}

#[test]
fn agent_logging_denials_only() {
    let mut agent = FirewallAgent::with_options(8, false).unwrap();
    agent.upsert_rule(mail_rule()).unwrap();
    let v = agent.decide("mail", "smtp.example.com", IpAddress::v4(203, 0, 113, 5), "smtps", 1);
    assert_eq!(v, Verdict::Allowed);
    let w = agent.decide("mail", "other", IpAddress::v4(203, 0, 113, 5), "smtps", 2);
    assert!(!w.is_allowed());
    let logs = agent.collect_logs();
    assert_eq!(logs.len(), 1);
    assert_eq!(logs[0].timestamp, 2);
}

#[test]
fn agent_rejects_zero_capacity() {
    assert!(matches!(FirewallAgent::with_options(0, true), Err(ConfigError::ZeroCapacity)));
}

#[test]
fn agent_remove_and_get_rule() {
    let mut agent = FirewallAgent::new();
    agent.upsert_rule(mail_rule()).unwrap();
    assert_eq!(agent.get_rule("mail"), Some(mail_rule()));
    agent.remove_rule("mail");
    agent.remove_rule("mail");
    assert_eq!(agent.get_rule("mail"), None);
    assert!(!agent.check_connection("mail", "smtp.example.com", IpAddress::v4(203, 0, 113, 5), "smtps", 0));
}
