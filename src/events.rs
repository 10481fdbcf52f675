use vstd::prelude::*;

use crate::alert::Severity;
use crate::channel::Channel;
use crate::ids::{AlertId, PolicyId, ScheduleId, UserId};

verus! {

/// A new alert was created. Times are seconds since the Unix epoch, UTC.
#[derive(Debug, Clone, PartialEq)]
pub struct AlertReceived {
    pub alert_id: AlertId,
    pub source: String,
    pub severity: Severity,
    pub occurred_at: i64,
}

/// A repeated submission of a known alert was suppressed.
#[derive(Debug, Clone, PartialEq)]
pub struct AlertDeduplicated {
    pub alert_id: AlertId,
    pub fingerprint: String,
    pub occurred_at: i64,
}

/// A user took ownership of a firing alert.
#[derive(Debug, Clone, PartialEq)]
pub struct AlertAcknowledged {
    pub alert_id: AlertId,
    pub user_id: UserId,
    pub occurred_at: i64,
}

/// An escalation step fired and notified its targets.
#[derive(Debug, Clone, PartialEq)]
pub struct AlertEscalated {
    pub alert_id: AlertId,
    pub step: u32,
    pub targets: Vec<String>,
    pub occurred_at: i64,
}

/// An alert reached its terminal state.
#[derive(Debug, Clone, PartialEq)]
pub struct AlertResolved {
    pub alert_id: AlertId,
    pub resolved_by: String,
    pub occurred_at: i64,
}

/// A channel adapter delivered a notification.
#[derive(Debug, Clone, PartialEq)]
pub struct NotificationSent {
    pub alert_id: AlertId,
    pub channel: Channel,
    pub target: String,
    pub external_id: Option<String>,
    pub occurred_at: i64,
}

/// A channel adapter failed to deliver a notification.
#[derive(Debug, Clone, PartialEq)]
pub struct NotificationFailed {
    pub alert_id: AlertId,
    pub channel: Channel,
    pub target: String,
    pub error: String,
    pub occurred_at: i64,
}

/// The user on call for a schedule changed.
#[derive(Debug, Clone, PartialEq)]
pub struct OnCallChanged {
    pub schedule_id: ScheduleId,
    pub new_user: UserId,
    pub previous_user: Option<UserId>,
    pub occurred_at: i64,
}

/// An escalation policy ran out of steps and repetitions.
#[derive(Debug, Clone, PartialEq)]
pub struct EscalationExhausted {
    pub alert_id: AlertId,
    pub policy_id: PolicyId,
    pub occurred_at: i64,
}

/// Everything the domain reports about a state change.
#[derive(Debug, Clone, PartialEq)]
pub enum DomainEvent {
    AlertReceived(AlertReceived),
    AlertDeduplicated(AlertDeduplicated),
    AlertAcknowledged(AlertAcknowledged),
    AlertEscalated(AlertEscalated),
    AlertResolved(AlertResolved),
    NotificationSent(NotificationSent),
    NotificationFailed(NotificationFailed),
    OnCallChanged(OnCallChanged),
    EscalationExhausted(EscalationExhausted),
}

/// The time at which an event happened.
pub open spec fn event_time(e: DomainEvent) -> i64 {
    match e {
        DomainEvent::AlertReceived(p) => p.occurred_at,
        DomainEvent::AlertDeduplicated(p) => p.occurred_at,
        DomainEvent::AlertAcknowledged(p) => p.occurred_at,
        DomainEvent::AlertEscalated(p) => p.occurred_at,
        DomainEvent::AlertResolved(p) => p.occurred_at,
        DomainEvent::NotificationSent(p) => p.occurred_at,
        DomainEvent::NotificationFailed(p) => p.occurred_at,
        DomainEvent::OnCallChanged(p) => p.occurred_at,
        DomainEvent::EscalationExhausted(p) => p.occurred_at,
    }
}

/// The stable type tag of an event.
pub open spec fn event_tag(e: DomainEvent) -> Seq<char> {
    match e {
        DomainEvent::AlertReceived(_) => "alert.received"@,
        DomainEvent::AlertDeduplicated(_) => "alert.deduplicated"@,
        DomainEvent::AlertAcknowledged(_) => "alert.acknowledged"@,
        DomainEvent::AlertEscalated(_) => "alert.escalated"@,
        DomainEvent::AlertResolved(_) => "alert.resolved"@,
        DomainEvent::NotificationSent(_) => "notification.sent"@,
        DomainEvent::NotificationFailed(_) => "notification.failed"@,
        DomainEvent::OnCallChanged(_) => "oncall.changed"@,
        DomainEvent::EscalationExhausted(_) => "escalation.exhausted"@,
    }
}

impl DomainEvent {
    /// When the event happened, in seconds since the Unix epoch.
    pub fn occurred_at(&self) -> (r: i64)
        ensures
            r == event_time(*self),
    {
        match self {
            DomainEvent::AlertReceived(e) => e.occurred_at,
            DomainEvent::AlertDeduplicated(e) => e.occurred_at,
            DomainEvent::AlertAcknowledged(e) => e.occurred_at,
            DomainEvent::AlertEscalated(e) => e.occurred_at,
            DomainEvent::AlertResolved(e) => e.occurred_at,
            DomainEvent::NotificationSent(e) => e.occurred_at,
            DomainEvent::NotificationFailed(e) => e.occurred_at,
            DomainEvent::OnCallChanged(e) => e.occurred_at,
            DomainEvent::EscalationExhausted(e) => e.occurred_at,
        }
    }

    /// The stable type tag under which the event is published.
    pub fn event_type(&self) -> (r: &'static str)
        ensures
            r@ == event_tag(*self),
    {
        match self {
            DomainEvent::AlertReceived(_) => "alert.received",
            DomainEvent::AlertDeduplicated(_) => "alert.deduplicated",
            DomainEvent::AlertAcknowledged(_) => "alert.acknowledged",
            DomainEvent::AlertEscalated(_) => "alert.escalated",
            DomainEvent::AlertResolved(_) => "alert.resolved",
            DomainEvent::NotificationSent(_) => "notification.sent",
            DomainEvent::NotificationFailed(_) => "notification.failed",
            DomainEvent::OnCallChanged(_) => "oncall.changed",
            DomainEvent::EscalationExhausted(_) => "escalation.exhausted",
        }
    }
}

} // verus!
