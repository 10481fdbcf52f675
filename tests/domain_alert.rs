use std::collections::BTreeMap;

use rouse::alert::{Alert, Fingerprint, Severity, Source, Status};
use rouse::error::DomainError;
use rouse::ids::UserId;

fn ts(s: &str) -> i64 {
    chrono::DateTime::parse_from_rfc3339(s).unwrap().timestamp()
}

fn make_labels() -> BTreeMap<String, String> {
    BTreeMap::from([
        ("alertname".into(), "HighCPU".into()),
        ("instance".into(), "web-01".into()),
    ])
}

fn now() -> i64 {
    ts("2025-01-15T10:00:00Z")
}

fn make_alert() -> Alert {
    let (alert, _) = Alert::new(
        "ext-123".into(),
        Source::new("alertmanager"),
        Severity::Critical,
        make_labels(),
        "CPU is high".into(),
        now(),
    );
    alert
}

#[test]
fn empty_labels_produce_valid_fingerprint() {
    let fp = Fingerprint::from_labels(&BTreeMap::new());
    assert!(!fp.as_str().is_empty());
    assert_eq!(fp.as_str().len(), 16);
}

#[test]
fn same_labels_produce_same_fingerprint() {
    let labels: BTreeMap<String, String> =
        BTreeMap::from([("a".into(), "1".into()), ("b".into(), "2".into())]);
    let fp1 = Fingerprint::from_labels(&labels);
    let fp2 = Fingerprint::from_labels(&labels);
    assert_eq!(fp1, fp2);
}

#[test]
fn different_labels_produce_different_fingerprint() {
    let a = BTreeMap::from([("a".into(), "1".into())]);
    let b = BTreeMap::from([("a".into(), "2".into())]);
    assert_ne!(Fingerprint::from_labels(&a), Fingerprint::from_labels(&b));
}

#[test]
fn display_matches_as_str() {
    let fp = Fingerprint::from_labels(&BTreeMap::from([("k".into(), "v".into())]));
    assert_eq!(fp.to_string(), fp.as_str());
}

#[test]
fn fingerprint_is_lowercase_hex() {
    let fp = Fingerprint::from_labels(&make_labels());
    assert!(fp
        .as_str()
        .chars()
        .all(|c| c.is_ascii_digit() || ('a'..='f').contains(&c)));
}

#[test]
fn fingerprint_is_stable_across_label_maps_with_equal_contents() {
    let fp1 = Fingerprint::from_labels(&make_labels());
    let fp2 = Fingerprint::from_labels(&make_labels().clone());
    assert_eq!(fp1.as_str(), fp2.as_str());
}

#[test]
fn new_alert_status_is_firing() {
    let alert = make_alert();
    assert_eq!(alert.status(), Status::Firing);
}

#[test]
fn new_alert_emits_received_event() {
    let (alert, events) = Alert::new(
        "ext-9".into(),
        Source::new("am"),
        Severity::Warning,
        make_labels(),
        "s".into(),
        now(),
    );
    assert_eq!(events.len(), 1);
    assert_eq!(events[0].event_type(), "alert.received");
    assert_eq!(events[0].occurred_at(), now());
    assert_eq!(alert.created_at(), now());
    assert_eq!(alert.source().as_str(), "am");
    assert_eq!(alert.summary(), "s");
    assert_eq!(alert.severity(), Severity::Warning);
}

#[test]
fn new_alert_fingerprint_is_deterministic() {
    let labels = make_labels();
    let (a1, _) = Alert::new(
        "ext-1".into(),
        Source::new("src"),
        Severity::Info,
        labels.clone(),
        "s".into(),
        now(),
    );
    let (a2, _) = Alert::new(
        "ext-2".into(),
        Source::new("src"),
        Severity::Info,
        labels,
        "s".into(),
        now(),
    );
    assert_eq!(a1.fingerprint(), a2.fingerprint());
}

#[test]
fn acknowledge_from_firing_succeeds() {
    let mut alert = make_alert();
    let result = alert.acknowledge(UserId::new(), now());
    assert!(result.is_ok());
    assert_eq!(alert.status(), Status::Acknowledged);
}

#[test]
fn acknowledge_records_user() {
    let mut alert = make_alert();
    let user = UserId::new();
    alert.acknowledge(user, now()).unwrap();
    assert_eq!(alert.acknowledged_by(), Some(&user));
}

#[test]
fn acknowledge_from_resolved_fails() {
    let mut alert = make_alert();
    alert.resolve("source".into(), now()).unwrap();
    let result = alert.acknowledge(UserId::new(), now());
    assert_eq!(result, Err(DomainError::AlertAlreadyResolved));
}

#[test]
fn acknowledge_twice_is_noop() {
    let mut alert = make_alert();
    alert.acknowledge(UserId::new(), now()).unwrap();
    let events = alert.acknowledge(UserId::new(), now()).unwrap();
    assert!(events.is_empty());
    assert_eq!(alert.status(), Status::Acknowledged);
}

#[test]
fn acknowledge_returns_event() {
    let mut alert = make_alert();
    let user = UserId::new();
    let events = alert.acknowledge(user, now()).unwrap();
    assert_eq!(events.len(), 1);
    assert_eq!(events[0].event_type(), "alert.acknowledged");
}

#[test]
fn resolve_from_firing_succeeds() {
    let mut alert = make_alert();
    let events = alert.resolve("operator".into(), now()).unwrap();
    assert_eq!(alert.status(), Status::Resolved);
    assert_eq!(events.len(), 1);
    assert_eq!(events[0].event_type(), "alert.resolved");
}

#[test]
fn resolve_from_acknowledged_succeeds() {
    let mut alert = make_alert();
    alert.acknowledge(UserId::new(), now()).unwrap();
    let events = alert.resolve("operator".into(), now()).unwrap();
    assert_eq!(alert.status(), Status::Resolved);
    assert_eq!(events.len(), 1);
}

#[test]
fn mod_resolve_already_resolved_is_noop() {
    let mut alert = make_alert();
    alert.resolve("a".into(), now()).unwrap();
    let events = alert.resolve("b".into(), now()).unwrap();
    assert!(events.is_empty());
}

#[test]
fn status_history_is_monotone() {
    let mut alert = make_alert();
    let mut seen = vec![alert.status()];
    alert.acknowledge(UserId::new(), now()).unwrap();
    seen.push(alert.status());
    let _ = alert.acknowledge(UserId::new(), now());
    seen.push(alert.status());
    alert.resolve("x".into(), now()).unwrap();
    seen.push(alert.status());
    let _ = alert.acknowledge(UserId::new(), now());
    seen.push(alert.status());
    let rank = |s: &Status| match s {
        Status::Firing => 0,
        Status::Acknowledged => 1,
        Status::Resolved => 2,
    };
    assert!(seen.windows(2).all(|w| rank(&w[0]) <= rank(&w[1])));
    assert_eq!(seen.last(), Some(&Status::Resolved));
}

#[test]
fn fingerprint_ignores_label_order() {
    let mut labels_a = BTreeMap::new();
    labels_a.insert("z".into(), "1".into());
    labels_a.insert("a".into(), "2".into());

    let mut labels_b = BTreeMap::new();
    labels_b.insert("a".into(), "2".into());
    labels_b.insert("z".into(), "1".into());

    let fp_a = Fingerprint::from_labels(&labels_a);
    let fp_b = Fingerprint::from_labels(&labels_b);
    assert_eq!(fp_a, fp_b);
}
