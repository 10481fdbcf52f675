use rouse::error::DomainError;
use rouse::ids::{OverrideId, UserId};
use rouse::schedule::{HandoffTime, Rotation, Schedule, ScheduleOverride};

fn zurich() -> String {
    "Europe/Zurich".into()
}

fn handoff_monday_9() -> HandoffTime {
    HandoffTime {
        day: chrono::Weekday::Mon,
        hour: 9,
        minute: 0,
    }
}

fn ts(s: &str) -> i64 {
    chrono::DateTime::parse_from_rfc3339(s).unwrap().timestamp()
}

fn make_users(n: usize) -> Vec<UserId> {
    (0..n).map(|_| UserId::new()).collect()
}

fn make_override() -> ScheduleOverride {
    ScheduleOverride::new(
        UserId::new(),
        ts("2025-01-14T00:00:00Z"),
        ts("2025-01-15T00:00:00Z"),
    )
}

#[test]
fn is_active_during_period() {
    assert!(make_override().is_active_at(ts("2025-01-14T12:00:00Z")));
}

#[test]
fn is_active_at_start_inclusive() {
    assert!(make_override().is_active_at(ts("2025-01-14T00:00:00Z")));
}

#[test]
fn is_not_active_at_end_exclusive() {
    assert!(!make_override().is_active_at(ts("2025-01-15T00:00:00Z")));
}

#[test]
fn is_not_active_before_start() {
    assert!(!make_override().is_active_at(ts("2025-01-13T23:59:59Z")));
}

#[test]
fn is_not_active_after_end() {
    assert!(!make_override().is_active_at(ts("2025-01-15T00:00:01Z")));
}

#[test]
fn rotation_durations() {
    assert_eq!(Rotation::Daily.duration(), 86_400);
    assert_eq!(Rotation::Weekly.duration(), 604_800);
    assert_eq!(Rotation::Custom(3600).duration(), 3600);
}

#[test]
fn schedule_requires_at_least_one_participant() {
    let result = Schedule::new(
        "empty".into(),
        zurich(),
        Rotation::Weekly,
        vec![],
        handoff_monday_9(),
    );
    assert!(matches!(
        result,
        Err(DomainError::ScheduleRequiresParticipant)
    ));
}

#[test]
fn rotation_epoch_is_local_midnight() {
    let sched = Schedule::new("z".into(), zurich(), Rotation::Daily, make_users(1), handoff_monday_9())
        .unwrap();
    // Zurich is UTC+1 in January: local midnight is 23:00 UTC the day before.
    assert_eq!(sched.rotation_epoch(), ts("2020-01-05T23:00:00Z"));
    let utc = Schedule::new("u".into(), "UTC".into(), Rotation::Daily, make_users(1), handoff_monday_9())
        .unwrap();
    assert_eq!(utc.rotation_epoch(), ts("2020-01-06T00:00:00Z"));
}

#[test]
fn single_participant_always_on_call() {
    let users = make_users(1);
    let sched = Schedule::new(
        "solo".into(),
        zurich(),
        Rotation::Weekly,
        users.clone(),
        handoff_monday_9(),
    )
    .unwrap();
    assert_eq!(sched.who_is_on_call(ts("2025-01-15T10:00:00Z")), users[0]);
    assert_eq!(sched.who_is_on_call(ts("2025-06-20T03:00:00Z")), users[0]);
}

#[test]
fn weekly_rotation_correct_person() {
    let users = make_users(3);
    let sched = Schedule::new(
        "team".into(),
        zurich(),
        Rotation::Weekly,
        users.clone(),
        handoff_monday_9(),
    )
    .unwrap();
    let on_call = sched.who_is_on_call(ts("2025-01-15T14:00:00Z"));
    assert!(users.contains(&on_call));
}

#[test]
fn daily_rotation_correct_person() {
    let users = make_users(2);
    let sched = Schedule::new(
        "daily".into(),
        zurich(),
        Rotation::Daily,
        users.clone(),
        handoff_monday_9(),
    )
    .unwrap();
    let day1 = sched.who_is_on_call(ts("2025-01-15T10:00:00Z"));
    let day2 = sched.who_is_on_call(ts("2025-01-16T10:00:00Z"));
    assert_ne!(day1, day2);
}

#[test]
fn rotation_index_counts_whole_periods_from_epoch() {
    let users = make_users(3);
    let sched = Schedule::new("d".into(), "UTC".into(), Rotation::Daily, users.clone(), handoff_monday_9())
        .unwrap();
    // 2020-01-06 is period 0; 2020-01-08 is period 2.
    assert_eq!(sched.who_is_on_call(ts("2020-01-06T00:00:00Z")), users[0]);
    assert_eq!(sched.who_is_on_call(ts("2020-01-06T23:59:59Z")), users[0]);
    assert_eq!(sched.who_is_on_call(ts("2020-01-07T00:00:00Z")), users[1]);
    assert_eq!(sched.who_is_on_call(ts("2020-01-08T12:00:00Z")), users[2]);
    assert_eq!(sched.who_is_on_call(ts("2020-01-09T12:00:00Z")), users[0]);
}

#[test]
fn rotation_before_epoch_rounds_down() {
    let users = make_users(3);
    let sched = Schedule::new("d".into(), "UTC".into(), Rotation::Daily, users.clone(), handoff_monday_9())
        .unwrap();
    // One second before the epoch is period -1, which is index 2.
    assert_eq!(sched.who_is_on_call(ts("2020-01-05T23:59:59Z")), users[2]);
    // A day and a half before: period -2, which is index 1.
    assert_eq!(sched.who_is_on_call(ts("2020-01-04T12:00:00Z")), users[1]);
    // Exactly two days before: period -2 as well.
    assert_eq!(sched.who_is_on_call(ts("2020-01-04T00:00:00Z")), users[1]);
    // The rotation repeats across the epoch.
    let t = ts("2020-01-05T23:59:59Z");
    assert_eq!(sched.who_is_on_call(t), sched.who_is_on_call(t + 3 * 86_400));
}

#[test]
fn rotation_period_must_be_positive() {
    for rotation in [Rotation::Custom(0), Rotation::Custom(-3600)] {
        let result = Schedule::new("r".into(), zurich(), rotation, make_users(1), handoff_monday_9());
        assert!(matches!(result, Err(DomainError::InvalidRotationPeriod)));
    }
}

#[test]
fn unknown_time_zone_is_rejected() {
    let result = Schedule::new("r".into(), "Mars/Olympus".into(), Rotation::Daily, make_users(1), handoff_monday_9());
    assert!(matches!(result, Err(DomainError::InvalidTimezone)));
    let empty = Schedule::new("r".into(), "Mars/Olympus".into(), Rotation::Daily, vec![], handoff_monday_9());
    assert!(matches!(empty, Err(DomainError::ScheduleRequiresParticipant)));
}

#[test]
fn schedule_keeps_its_zone_name() {
    let sched = Schedule::new("z".into(), zurich(), Rotation::Daily, make_users(1), handoff_monday_9())
        .unwrap();
    assert_eq!(sched.timezone(), "Europe/Zurich");
}

#[test]
fn override_takes_precedence() {
    let users = make_users(2);
    let mut sched = Schedule::new(
        "team".into(),
        zurich(),
        Rotation::Weekly,
        users.clone(),
        handoff_monday_9(),
    )
    .unwrap();
    let override_user = UserId::new();
    let ovr = ScheduleOverride::new(
        override_user,
        ts("2025-01-14T00:00:00Z"),
        ts("2025-01-15T00:00:00Z"),
    );
    sched.add_override(ovr, ts("2025-01-13T00:00:00Z")).unwrap();
    assert_eq!(sched.who_is_on_call(ts("2025-01-14T10:00:00Z")), override_user);
}

#[test]
fn override_precedence_scenario() {
    let users = make_users(3);
    let mut sched = Schedule::new("p".into(), zurich(), Rotation::Daily, users.clone(), handoff_monday_9())
        .unwrap();
    let x = UserId::new();
    let rotation_at_end = sched.who_is_on_call(ts("2025-01-15T00:00:00Z"));
    sched
        .add_override(
            ScheduleOverride::new(x, ts("2025-01-14T00:00:00Z"), ts("2025-01-15T00:00:00Z")),
            ts("2025-01-13T00:00:00Z"),
        )
        .unwrap();
    assert_eq!(sched.who_is_on_call(ts("2025-01-14T10:00:00Z")), x);
    let after = sched.who_is_on_call(ts("2025-01-15T00:00:00Z"));
    assert_eq!(after, rotation_at_end);
    assert!(users.contains(&after));
}

#[test]
fn latest_override_wins() {
    let users = make_users(2);
    let mut sched = Schedule::new("p".into(), zurich(), Rotation::Daily, users, handoff_monday_9())
        .unwrap();
    let first = UserId::new();
    let second = UserId::new();
    sched
        .add_override(ScheduleOverride::new(first, 100, 1_000), 0)
        .unwrap();
    sched
        .add_override(ScheduleOverride::new(second, 500, 2_000), 0)
        .unwrap();
    assert_eq!(sched.who_is_on_call(200), first);
    assert_eq!(sched.who_is_on_call(600), second);
    assert_eq!(sched.who_is_on_call(1_500), second);
}

#[test]
fn override_expires_rotation_resumes() {
    let users = make_users(2);
    let mut sched = Schedule::new(
        "team".into(),
        zurich(),
        Rotation::Weekly,
        users.clone(),
        handoff_monday_9(),
    )
    .unwrap();
    let ovr = ScheduleOverride::new(
        UserId::new(),
        ts("2025-01-14T00:00:00Z"),
        ts("2025-01-15T00:00:00Z"),
    );
    sched.add_override(ovr, ts("2025-01-13T00:00:00Z")).unwrap();
    let on_call = sched.who_is_on_call(ts("2025-01-15T10:00:00Z"));
    assert!(users.contains(&on_call));
}

#[test]
fn rotation_wraps_around() {
    let users = make_users(3);
    let sched = Schedule::new(
        "wrap".into(),
        zurich(),
        Rotation::Daily,
        users.clone(),
        handoff_monday_9(),
    )
    .unwrap();
    let day1 = sched.who_is_on_call(ts("2025-01-15T10:00:00Z"));
    let day4 = sched.who_is_on_call(ts("2025-01-18T10:00:00Z"));
    assert_eq!(day1, day4);
}

#[test]
fn rotation_repeats_after_full_cycle() {
    let users = make_users(4);
    let sched = Schedule::new("c".into(), zurich(), Rotation::Custom(3600), users, handoff_monday_9())
        .unwrap();
    let t = ts("2025-03-01T07:30:00Z");
    assert_eq!(sched.who_is_on_call(t), sched.who_is_on_call(t + 4 * 3600));
}

#[test]
fn timezone_aware_handoff() {
    let users = make_users(2);
    let sched = Schedule::new(
        "tz".into(),
        zurich(),
        Rotation::Daily,
        users.clone(),
        handoff_monday_9(),
    )
    .unwrap();
    let on_call = sched.who_is_on_call(ts("2025-01-15T08:00:00Z"));
    assert!(users.contains(&on_call));
}

#[test]
fn add_override_with_invalid_period_fails() {
    let users = make_users(1);
    let mut sched = Schedule::new(
        "test".into(),
        zurich(),
        Rotation::Weekly,
        users,
        handoff_monday_9(),
    )
    .unwrap();
    let ovr = ScheduleOverride::new(
        UserId::new(),
        ts("2025-01-15T10:00:00Z"),
        ts("2025-01-15T09:00:00Z"),
    );
    let result = sched.add_override(ovr, ts("2025-01-14T00:00:00Z"));
    assert_eq!(result, Err(DomainError::InvalidOverridePeriod));
}

#[test]
fn add_override_with_empty_period_fails() {
    let mut sched = Schedule::new("t".into(), zurich(), Rotation::Weekly, make_users(1), handoff_monday_9())
        .unwrap();
    let ovr = ScheduleOverride::new(UserId::new(), 10, 10);
    assert_eq!(sched.add_override(ovr, 0), Err(DomainError::InvalidOverridePeriod));
}

#[test]
fn add_override_reports_new_user() {
    let mut sched = Schedule::new("t".into(), zurich(), Rotation::Weekly, make_users(1), handoff_monday_9())
        .unwrap();
    let user = UserId::new();
    let events = sched
        .add_override(ScheduleOverride::new(user, 10, 20), 5)
        .unwrap();
    assert_eq!(events.len(), 1);
    assert_eq!(events[0].event_type(), "oncall.changed");
    match &events[0] {
        rouse::events::DomainEvent::OnCallChanged(e) => {
            assert_eq!(e.new_user, user);
            assert_eq!(e.previous_user, None);
            assert_eq!(e.schedule_id, *sched.id());
            assert_eq!(e.occurred_at, 5);
        }
        _ => panic!("unexpected event"),
    }
}

#[test]
fn remove_override_returns_event() {
    let users = make_users(1);
    let mut sched = Schedule::new(
        "test".into(),
        zurich(),
        Rotation::Weekly,
        users.clone(),
        handoff_monday_9(),
    )
    .unwrap();
    let ovr = ScheduleOverride::new(
        UserId::new(),
        ts("2025-01-14T00:00:00Z"),
        ts("2025-01-16T00:00:00Z"),
    );
    let ovr_id = *ovr.id();
    sched.add_override(ovr, ts("2025-01-13T00:00:00Z")).unwrap();
    let events = sched
        .remove_override(&ovr_id, ts("2025-01-14T10:00:00Z"))
        .unwrap();
    assert_eq!(events.len(), 1);
    assert_eq!(events[0].event_type(), "oncall.changed");
    match &events[0] {
        rouse::events::DomainEvent::OnCallChanged(e) => assert_eq!(e.new_user, users[0]),
        _ => panic!("unexpected event"),
    }
}

#[test]
fn remove_nonexistent_override_is_noop() {
    let users = make_users(1);
    let mut sched = Schedule::new(
        "test".into(),
        zurich(),
        Rotation::Weekly,
        users,
        handoff_monday_9(),
    )
    .unwrap();
    let fake_id = OverrideId::new();
    let events = sched
        .remove_override(&fake_id, ts("2025-01-14T10:00:00Z"))
        .unwrap();
    assert!(events.is_empty());
}

fn make_schedule(users: Vec<UserId>) -> Schedule {
    Schedule::new("platform".into(), zurich(), Rotation::Weekly, users, handoff_monday_9()).unwrap()
}

#[test]
fn create_schedule_saves() {
    let mut store: Vec<Schedule> = Vec::new();
    let schedule = make_schedule(make_users(3));
    let schedule_id = *schedule.id();
    store.push(schedule);
    assert_eq!(store.len(), 1);
    assert_eq!(store[0].id(), &schedule_id);
}

#[test]
fn who_is_on_call_delegates_to_domain() {
    let users = make_users(3);
    let store = vec![make_schedule(users.clone())];
    let id = store[0].id().to_string();
    let found = store.iter().find(|s| s.id().to_string() == id).unwrap();
    assert!(users.contains(&found.who_is_on_call(ts("2025-01-15T14:00:00Z"))));
}

#[test]
fn add_override_persists_and_publishes() {
    let mut store = vec![make_schedule(make_users(2))];
    let override_user = UserId::new();
    let ovr = ScheduleOverride::new(
        override_user,
        ts("2025-01-14T00:00:00Z"),
        ts("2025-01-15T00:00:00Z"),
    );
    let events = store[0].add_override(ovr, ts("2025-01-13T00:00:00Z")).unwrap();
    assert_eq!(store[0].who_is_on_call(ts("2025-01-14T10:00:00Z")), override_user);
    assert_eq!(events.len(), 1);
    assert_eq!(events[0].event_type(), "oncall.changed");
}
