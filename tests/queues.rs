use rouse::channel::QueueStatus;
use rouse::error::NotifyError;
use rouse::ids::{AlertId, PolicyId};
use rouse::ports::PendingEscalation;
use rouse::channel::Channel;
use rouse::events::DomainEvent;
use rouse::ports::{NotifyResult, PendingNotification};
use rouse::queue::{
    after_delivery, backoff, on_delivery_failure, EscalationStepQueue, NotificationOutbox,
    RetryDecision, RowUpdate,
};

fn row(id: &str, alert_id: AlertId, fires_at: i64) -> PendingEscalation {
    PendingEscalation {
        id: id.into(),
        alert_id,
        policy_id: PolicyId::new(),
        step_order: 0,
        repetition: 0,
        fires_at,
        status: QueueStatus::Pending,
    }
}

#[test]
fn enqueue_and_poll_due() {
    let mut q = EscalationStepQueue::new();
    let a = AlertId::new();
    q.enqueue_step(row("s1", a, 100));
    let due = q.poll_due(110);
    assert_eq!(due.len(), 1);
    assert_eq!(due[0].alert_id, a);
    assert!(q.poll_due(99).is_empty());
}

#[test]
fn poll_due_orders_by_firing_time() {
    let mut q = EscalationStepQueue::new();
    let a = AlertId::new();
    q.enqueue_step(row("late", a, 300));
    q.enqueue_step(row("early", a, 100));
    q.enqueue_step(row("middle", a, 200));
    q.enqueue_step(row("future", a, 900));
    let ids: Vec<String> = q.poll_due(500).into_iter().map(|r| r.id).collect();
    assert_eq!(ids, vec!["early", "middle", "late"]);
}

#[test]
fn cancel_for_alert_removes_pending() {
    let mut q = EscalationStepQueue::new();
    let a = AlertId::new();
    let b = AlertId::new();
    q.enqueue_step(row("s1", a, 100));
    q.enqueue_step(row("s2", b, 100));
    q.cancel_for_alert(a);
    let due = q.poll_due(1_000);
    assert_eq!(due.len(), 1);
    assert_eq!(due[0].alert_id, b);
    assert!(q.poll_due(i64::MAX).iter().all(|r| r.alert_id != a));
}

#[test]
fn mark_fired_removes_from_pending() {
    let mut q = EscalationStepQueue::new();
    let a = AlertId::new();
    q.enqueue_step(row("s1", a, 100));
    q.enqueue_step(row("s2", a, 150));
    q.mark_fired("s1");
    let due = q.poll_due(1_000);
    assert_eq!(due.len(), 1);
    assert_eq!(due[0].id, "s2");
}

#[test]
fn enqueued_rows_are_pending() {
    let mut q = EscalationStepQueue::new();
    let mut r = row("s1", AlertId::new(), 5);
    r.status = QueueStatus::Dead;
    q.enqueue_step(r);
    assert_eq!(q.poll_due(5)[0].status, QueueStatus::Pending);
}

#[test]
fn backoff_doubles_and_caps() {
    assert_eq!(backoff(0), 30);
    assert_eq!(backoff(1), 60);
    assert_eq!(backoff(3), 240);
    assert_eq!(backoff(6), 1920);
    assert_eq!(backoff(7), 3600);
    assert_eq!(backoff(u32::MAX), 3600);
}

#[test]
fn retry_policy_decisions() {
    assert_eq!(
        on_delivery_failure(&NotifyError::RateLimited, 0, 1_000),
        RetryDecision::Retry { next_attempt_at: 1_030 }
    );
    assert_eq!(
        on_delivery_failure(&NotifyError::DeliveryFailed("x".into()), 2, 1_000),
        RetryDecision::Retry { next_attempt_at: 1_120 }
    );
    assert_eq!(
        on_delivery_failure(&NotifyError::InvalidTarget, 0, 1_000),
        RetryDecision::Dead
    );
    assert_eq!(
        on_delivery_failure(&NotifyError::ChannelUnavailable, 9, 1_000),
        RetryDecision::Dead
    );
    assert_eq!(
        on_delivery_failure(&NotifyError::ChannelUnavailable, 8, 1_000),
        RetryDecision::Retry { next_attempt_at: 1_000 + 3_600 }
    );
}

#[test]
fn delivery_outcomes() {
    let row = PendingNotification {
        id: "n1".into(),
        alert_id: AlertId::new(),
        channel: Channel::Sms,
        target: "+41791234567".into(),
        payload: "{}".into(),
        status: QueueStatus::Pending,
        next_attempt_at: 0,
        retry_count: 1,
        created_at: 0,
    };
    let ok = NotifyResult { external_id: Some("m-1".into()), ..Default::default() };
    let (event, update) = after_delivery(&row, Ok(ok), 50);
    assert_eq!(update, RowUpdate::MarkSent);
    assert_eq!(event.event_type(), "notification.sent");

    let (event, update) = after_delivery(&row, Err(NotifyError::DeliveryFailed("timeout".into())), 50);
    assert_eq!(update, RowUpdate::MarkFailed { next_attempt_at: 110 });
    match event {
        DomainEvent::NotificationFailed(e) => {
            assert_eq!(e.error, "delivery failed: timeout");
            assert_eq!(e.target, "+41791234567");
        }
        _ => panic!("expected a failure event"),
    }

    let (_, update) = after_delivery(&row, Err(NotifyError::InvalidTarget), 50);
    assert_eq!(update, RowUpdate::MarkDead);
    assert_eq!(NotifyError::RateLimited.message(), "rate limited");
}

fn notification(id: &str, at: i64) -> PendingNotification {
    PendingNotification {
        id: id.into(),
        alert_id: AlertId::new(),
        channel: Channel::Slack,
        target: "#oncall".into(),
        payload: r#"{"text":"alert fired"}"#.into(),
        status: QueueStatus::Pending,
        next_attempt_at: at,
        retry_count: 0,
        created_at: at,
    }
}

#[test]
fn enqueue_and_poll_pending() {
    let mut q = NotificationOutbox::new();
    q.enqueue(notification("n2", 20));
    q.enqueue(notification("n1", 10));
    q.enqueue(notification("n3", 99));
    let ids: Vec<String> = q.poll_pending(50).into_iter().map(|n| n.id).collect();
    assert_eq!(ids, vec!["n1", "n2"]);
}

#[test]
fn mark_sent_removes_from_pending() {
    let mut q = NotificationOutbox::new();
    q.enqueue(notification("n1", 10));
    q.mark_sent("n1");
    assert!(q.poll_pending(100).is_empty());
}

#[test]
fn mark_dead_removes_from_pending() {
    let mut q = NotificationOutbox::new();
    q.enqueue(notification("n1", 10));
    q.enqueue(notification("n2", 10));
    q.mark_dead("n1");
    let pending = q.poll_pending(100);
    assert_eq!(pending.len(), 1);
    assert_eq!(pending[0].id, "n2");
}

#[test]
fn mark_failed_reschedules_with_one_more_retry() {
    let mut q = NotificationOutbox::new();
    q.enqueue(notification("n1", 10));
    q.enqueue(notification("n2", 20));
    q.mark_failed("n1", 40);
    let now = q.poll_pending(30);
    assert_eq!(now.len(), 1);
    assert_eq!(now[0].id, "n2");
    let later = q.poll_pending(40);
    assert_eq!(later.len(), 2);
    assert_eq!(later[1].id, "n1");
    assert_eq!(later[1].retry_count, 1);
    assert_eq!(later[1].next_attempt_at, 40);
    q.mark_failed("missing", 0);
    assert_eq!(q.poll_pending(40).len(), 2);
}
