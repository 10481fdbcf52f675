use vstd::prelude::*;

use std::collections::{BTreeMap, HashMap};

use crate::alert::{Severity, Status};
use crate::channel::{Channel, QueueStatus};
use crate::ids::{AlertId, PolicyId};

verus! {

/// Alert data as delivered by a monitoring system, before domain validation.
#[derive(Debug, Clone)]
pub struct RawAlert {
    pub external_id: String,
    pub source: String,
    pub severity: String,
    pub labels: BTreeMap<String, String>,
    pub summary: String,
    pub status: String,
}

/// A notification ready to be handed to a channel adapter.
#[derive(Debug, Clone)]
pub struct Notification {
    pub alert_id: AlertId,
    pub severity: Severity,
    pub summary: String,
    pub labels: BTreeMap<String, String>,
    pub target: String,
    pub base_url: String,
}

/// Delivery metadata returned by a channel adapter.
#[derive(Debug, Clone, Default)]
pub struct NotifyResult {
    pub external_id: Option<String>,
    pub metadata: HashMap<String, String>,
}

/// Criteria for listing alerts.
#[derive(Debug, Clone, Default)]
pub struct AlertFilter {
    pub status: Option<Status>,
    pub severity: Option<Severity>,
    pub source: Option<String>,
    pub search: Option<String>,
    pub page: u32,
    pub per_page: u32,
}

/// A queued notification as plain values. Times are seconds since the Unix epoch, UTC.
pub struct PendingNotificationView {
    pub id: Seq<char>,
    pub alert_id: AlertId,
    pub channel: Channel,
    pub target: Seq<char>,
    pub payload: Seq<char>,
    pub status: QueueStatus,
    pub next_attempt_at: i64,
    pub retry_count: u32,
    pub created_at: i64,
}

/// A notification waiting in the outbound queue.
#[derive(Debug)]
pub struct PendingNotification {
    pub id: String,
    pub alert_id: AlertId,
    pub channel: Channel,
    pub target: String,
    pub payload: String,
    pub status: QueueStatus,
    pub next_attempt_at: i64,
    pub retry_count: u32,
    pub created_at: i64,
}

impl View for PendingNotification {
    type V = PendingNotificationView;

    open spec fn view(&self) -> PendingNotificationView {
        PendingNotificationView {
            id: self.id@,
            alert_id: self.alert_id,
            channel: self.channel,
            target: self.target@,
            payload: self.payload@,
            status: self.status,
            next_attempt_at: self.next_attempt_at,
            retry_count: self.retry_count,
            created_at: self.created_at,
        }
    }
}

impl PendingNotification {
    /// A copy with the same contents.
    pub fn duplicate(&self) -> (r: PendingNotification)
        ensures
            r@ == self@,
    {
        PendingNotification {
            id: self.id.clone(),
            alert_id: self.alert_id,
            channel: self.channel,
            target: self.target.clone(),
            payload: self.payload.clone(),
            status: self.status,
            next_attempt_at: self.next_attempt_at,
            retry_count: self.retry_count,
            created_at: self.created_at,
        }
    }
}

/// A queued escalation step as plain values. `fires_at` is in seconds since the Unix epoch.
pub struct PendingEscalationView {
    pub id: Seq<char>,
    pub alert_id: AlertId,
    pub policy_id: PolicyId,
    pub step_order: u32,
    pub repetition: u32,
    pub fires_at: i64,
    pub status: QueueStatus,
}

/// An escalation step waiting to fire. `step_order` is the index of the step in its policy and
/// `repetition` counts the runs through the policy that came before this one.
#[derive(Debug)]
pub struct PendingEscalation {
    pub id: String,
    pub alert_id: AlertId,
    pub policy_id: PolicyId,
    pub step_order: u32,
    pub repetition: u32,
    pub fires_at: i64,
    pub status: QueueStatus,
}

impl View for PendingEscalation {
    type V = PendingEscalationView;

    open spec fn view(&self) -> PendingEscalationView {
        PendingEscalationView {
            id: self.id@,
            alert_id: self.alert_id,
            policy_id: self.policy_id,
            step_order: self.step_order,
            repetition: self.repetition,
            fires_at: self.fires_at,
            status: self.status,
        }
    }
}

impl PendingEscalation {
    /// A copy with the same contents.
    pub fn duplicate(&self) -> (r: PendingEscalation)
        ensures
            r@ == self@,
    {
        PendingEscalation {
            id: self.id.clone(),
            alert_id: self.alert_id,
            policy_id: self.policy_id,
            step_order: self.step_order,
            repetition: self.repetition,
            fires_at: self.fires_at,
            status: self.status,
        }
    }
}

} // verus!
