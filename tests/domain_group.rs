use std::collections::BTreeMap;

use rouse::alert::{Alert, Severity, Source};
use rouse::group::{compute_grouping_key, place_in_group, should_group, AlertGroup, GroupingResult};
use rouse::ids::AlertId;

fn ts(s: &str) -> i64 {
    chrono::DateTime::parse_from_rfc3339(s).unwrap().timestamp()
}

fn make_alert_at(source: &str, service: &str, at: i64) -> Alert {
    let labels = BTreeMap::from([("service".into(), service.into())]);
    let (alert, _) = Alert::new(
        "ext-1".into(),
        Source::new(source),
        Severity::Critical,
        labels,
        "test".into(),
        at,
    );
    alert
}

fn make_alert(source: &str, service: &str) -> Alert {
    make_alert_at(source, service, ts("2025-01-15T10:00:00Z"))
}

#[test]
fn new_group_has_root_as_first_member() {
    let root = AlertId::new();
    let group = AlertGroup::new(root, "src:api".into(), 30, ts("2025-01-15T10:00:00Z"));
    assert_eq!(group.member_count(), 1);
    assert_eq!(group.root_alert_id(), &root);
}

#[test]
fn add_member_increments_count_and_updates_last_added() {
    let mut group = AlertGroup::new(AlertId::new(), "src:api".into(), 30, ts("2025-01-15T10:00:00Z"));

    group.add_member(AlertId::new(), ts("2025-01-15T10:00:05Z"));
    assert_eq!(group.member_count(), 2);
    assert_eq!(group.last_added_at(), ts("2025-01-15T10:00:05Z"));

    group.add_member(AlertId::new(), ts("2025-01-15T10:00:10Z"));
    assert_eq!(group.member_count(), 3);
    assert_eq!(group.last_added_at(), ts("2025-01-15T10:00:10Z"));
}

#[test]
fn grouping_key_deterministic() {
    let a1 = make_alert("alertmanager", "api");
    let a2 = make_alert("alertmanager", "api");
    assert_eq!(compute_grouping_key(&a1), compute_grouping_key(&a2));
}

#[test]
fn grouping_key_format() {
    assert_eq!(compute_grouping_key(&make_alert("am", "api")), "am:api");
    let (no_service, _) = Alert::new(
        "e".into(),
        Source::new("am"),
        Severity::Info,
        BTreeMap::from([("env".into(), "prod".into())]),
        "s".into(),
        0,
    );
    assert_eq!(compute_grouping_key(&no_service), "am");
}

#[test]
fn different_sources_different_keys() {
    let a1 = make_alert("alertmanager", "api");
    let a2 = make_alert("datadog", "api");
    assert_ne!(compute_grouping_key(&a1), compute_grouping_key(&a2));
}

#[test]
fn different_services_different_keys() {
    let a1 = make_alert("alertmanager", "api");
    let a2 = make_alert("alertmanager", "payments");
    assert_ne!(compute_grouping_key(&a1), compute_grouping_key(&a2));
}

#[test]
fn alert_within_window_groups() {
    let group = AlertGroup::new(AlertId::new(), "am:api".into(), 30, ts("2025-01-15T10:00:00Z"));
    assert!(should_group(&group, ts("2025-01-15T10:00:10Z"), 30));
}

#[test]
fn alert_outside_window_does_not_group() {
    let group = AlertGroup::new(AlertId::new(), "am:api".into(), 30, ts("2025-01-15T10:00:00Z"));
    assert!(!should_group(&group, ts("2025-01-15T10:01:00Z"), 30));
}

#[test]
fn alert_exactly_at_window_boundary_opens_new_group() {
    let group = AlertGroup::new(AlertId::new(), "am:api".into(), 30, ts("2025-01-15T10:00:00Z"));
    assert!(!should_group(&group, ts("2025-01-15T10:00:30Z"), 30));
    assert!(should_group(&group, ts("2025-01-15T10:00:29Z"), 30));
}

#[test]
fn grouping_scenario_window_thirty_seconds() {
    let a = make_alert_at("am", "api", ts("2025-01-15T10:00:00Z"));
    let b = make_alert_at("am", "api", ts("2025-01-15T10:00:10Z"));
    let c = make_alert_at("am", "api", ts("2025-01-15T10:00:45Z"));

    let (g1, r1, _) = place_in_group(None, &a, 30);
    assert_eq!(r1, GroupingResult::NewGroup(*g1.id()));
    let first_id = *g1.id();

    let (g2, r2, prev) = place_in_group(Some(g1), &b, 30);
    assert_eq!(r2, GroupingResult::Grouped(first_id));
    assert_eq!(g2.members(), &[*a.id(), *b.id()]);
    assert!(prev.is_none());

    let (g3, r3, prev3) = place_in_group(Some(g2), &c, 30);
    assert_eq!(r3, GroupingResult::NewGroup(*g3.id()));
    assert_ne!(*g3.id(), first_id);
    assert_eq!(g3.root_alert_id(), c.id());
    assert_eq!(g3.member_count(), 1);
    let old = prev3.unwrap();
    assert_eq!(*old.id(), first_id);
    assert_eq!(old.member_count(), 2);
}

#[test]
fn different_services_are_not_grouped() {
    let a = make_alert_at("am", "api", ts("2025-01-15T10:00:00Z"));
    let b = make_alert_at("am", "web", ts("2025-01-15T10:00:05Z"));
    let (g1, _, _) = place_in_group(None, &a, 30);
    let (g2, r2, prev) = place_in_group(Some(g1), &b, 30);
    assert_eq!(r2, GroupingResult::NewGroup(*g2.id()));
    assert_eq!(g2.grouping_key(), "am:web");
    assert_eq!(prev.unwrap().grouping_key(), "am:api");
}

/// Groups kept in memory, found by key as a store would, updated through `place_in_group`.
struct GroupStore {
    groups: Vec<AlertGroup>,
    window: i64,
}

impl GroupStore {
    fn new() -> Self {
        GroupStore { groups: Vec::new(), window: 30 }
    }

    fn process(&mut self, alert: &Alert) -> GroupingResult {
        let key = compute_grouping_key(alert);
        let existing = self
            .groups
            .iter()
            .position(|g| g.grouping_key() == key)
            .map(|i| self.groups.remove(i));
        let (group, result, previous) = place_in_group(existing, alert, self.window);
        if let Some(p) = previous {
            self.groups.push(p);
        }
        self.groups.push(group);
        result
    }
}

#[test]
fn first_alert_creates_new_group() {
    let mut svc = GroupStore::new();
    let result = svc.process(&make_alert_at("am", "api", ts("2025-01-15T10:00:00Z")));
    assert!(matches!(result, GroupingResult::NewGroup(_)));
    assert_eq!(svc.groups.len(), 1);
    assert_eq!(svc.groups[0].member_count(), 1);
}

#[test]
fn alerts_within_window_grouped() {
    let mut svc = GroupStore::new();
    let r1 = svc.process(&make_alert_at("am", "api", ts("2025-01-15T10:00:00Z")));
    let r2 = svc.process(&make_alert_at("am", "api", ts("2025-01-15T10:00:10Z")));
    assert!(matches!(r1, GroupingResult::NewGroup(_)));
    assert!(matches!(r2, GroupingResult::Grouped(_)));
    assert_eq!(svc.groups.len(), 1);
    assert_eq!(svc.groups[0].member_count(), 2);
}

#[test]
fn alert_outside_window_creates_new_group() {
    let mut svc = GroupStore::new();
    svc.process(&make_alert_at("am", "api", ts("2025-01-15T10:00:00Z")));
    let r2 = svc.process(&make_alert_at("am", "api", ts("2025-01-15T10:01:00Z")));
    assert!(matches!(r2, GroupingResult::NewGroup(_)));
    assert_eq!(svc.groups.len(), 2);
}

#[test]
fn different_services_separate_groups() {
    let mut svc = GroupStore::new();
    svc.process(&make_alert_at("am", "api", ts("2025-01-15T10:00:00Z")));
    svc.process(&make_alert_at("am", "payments", ts("2025-01-15T10:00:05Z")));
    assert_eq!(svc.groups.len(), 2);
}

#[test]
fn five_alerts_within_window_single_group() {
    let mut svc = GroupStore::new();
    for i in 0..5 {
        let at = ts("2025-01-15T10:00:00Z") + i * 2;
        svc.process(&make_alert_at("am", "api", at));
    }
    assert_eq!(svc.groups.len(), 1);
    assert_eq!(svc.groups[0].member_count(), 5);
}
