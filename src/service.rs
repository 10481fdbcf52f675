use vstd::prelude::*;

use crate::alert::{
    fingerprint_of, labels_view, Alert, AlertView, Fingerprint, Severity, Source, Status,
};
use crate::error::{AppError, DomainError, PortError};
use crate::events::{AlertAcknowledged, AlertDeduplicated, DomainEvent};
use crate::ids::{AlertId, PolicyId, UserId};
use crate::ports::RawAlert;
use crate::router::{routes_to, AlertRouter};
use crate::text::str_eq;

verus! {

/// The lowercase form of a text.
pub uninterp spec fn lowercase_of(s: Seq<char>) -> Seq<char>;

/// Relies on `str::to_lowercase`: the Unicode lowercase mapping, which depends on the text
/// alone.
#[verifier::external_body]
fn to_lowercase(s: &str) -> (r: String)
    ensures
        r@ == lowercase_of(s@),
{
    s.to_lowercase()
}

/// `"critical"` is critical, `"warning"` a warning, anything else informational.
pub open spec fn severity_of(lowered: Seq<char>) -> Severity {
    if lowered == "critical"@ {
        Severity::Critical
    } else if lowered == "warning"@ {
        Severity::Warning
    } else {
        Severity::Info
    }
}

/// The severity named by an already lowercased text.
pub fn severity_from_lowercase(lowered: &str) -> (r: Severity)
    ensures
        r == severity_of(lowered@),
{
    if str_eq(lowered, "critical") {
        Severity::Critical
    } else if str_eq(lowered, "warning") {
        Severity::Warning
    } else {
        Severity::Info
    }
}

/// The severity named by an inbound severity text, compared case-insensitively.
pub fn parse_severity(text: &str) -> (r: Severity)
    ensures
        r == severity_of(lowercase_of(text@)),
{
    let lowered = to_lowercase(text);
    severity_from_lowercase(lowered.as_str())
}

/// Whether an already lowercased status text asks to resolve the alert.
pub fn is_resolved_status(lowered: &str) -> (r: bool)
    ensures
        r == (lowered@ == "resolved"@),
{
    str_eq(lowered, "resolved")
}

/// What receiving an inbound alert amounts to. The caller persists and publishes.
#[derive(Debug)]
pub enum ReceiveOutcome {
    /// The source resolved a known alert. When `events` is not empty the caller cancels the
    /// alert's queued escalations, stores `alert`, then publishes `events`.
    Resolved { alert: Alert, events: Vec<DomainEvent> },
    /// A known alert came in again: `events` are published; `alert` is handed back as it
    /// was, and nothing is stored.
    Deduplicated { alert: Alert, events: Vec<DomainEvent> },
    /// A new alert: the caller stores `alert`, publishes `events`, and escalates through
    /// `policy` when one matched.
    Created { alert: Alert, events: Vec<DomainEvent>, policy: Option<PolicyId> },
}

impl ReceiveOutcome {
    /// The id of the alert the submission refers to.
    pub fn alert_id(&self) -> (r: AlertId)
        ensures
            r == match self {
                ReceiveOutcome::Resolved { alert, .. } => alert@.id,
                ReceiveOutcome::Deduplicated { alert, .. } => alert@.id,
                ReceiveOutcome::Created { alert, .. } => alert@.id,
            },
    {
        match self {
            ReceiveOutcome::Resolved { alert, .. } => *alert.id(),
            ReceiveOutcome::Deduplicated { alert, .. } => *alert.id(),
            ReceiveOutcome::Created { alert, .. } => *alert.id(),
        }
    }
}

/// The attribution of a resolve that the source itself sent.
pub open spec fn source_resolver(source: Seq<char>) -> Seq<char> {
    "source:"@ + source
}

/// Decides what an inbound alert means, given the alert already stored under the fingerprint of
/// its labels (`existing`). A status of `resolved` (any case) resolves that alert in the
/// source's name, failing with `NotFound` when there is none; otherwise a known alert is
/// deduplicated and left as it is, and an unknown one is created and routed.
pub fn plan_receive(raw: RawAlert, existing: Option<Alert>, router: &AlertRouter, now: i64) -> (r:
    Result<ReceiveOutcome, AppError>)
    ensures
        lowercase_of(raw.status@) == "resolved"@ ==> match existing {
            None => r == Err::<ReceiveOutcome, AppError>(AppError::Port(PortError::NotFound)),
            Some(a) => r matches Ok(ReceiveOutcome::Resolved { alert, events }) && (if a@.status
                == Status::Resolved {
                alert@ == a@ && events@.len() == 0
            } else {
                alert@ == (AlertView {
                    status: Status::Resolved,
                    resolved_at: Some(now),
                    ..a@
                }) && events@.len() == 1 && (events@[0] matches DomainEvent::AlertResolved(e)
                    && e.alert_id == a@.id && e.resolved_by@ == source_resolver(raw.source@)
                    && e.occurred_at == now)
            }),
        },
        lowercase_of(raw.status@) != "resolved"@ ==> match existing {
            Some(a) => r matches Ok(ReceiveOutcome::Deduplicated { alert, events }) && alert@
                == a@ && events@.len() == 1 && (events@[0] matches DomainEvent::AlertDeduplicated(
                e,
            ) && e.alert_id == a@.id && e.fingerprint@ == fingerprint_of(labels_view(&raw.labels))
                && e.occurred_at == now),
            None => r matches Ok(ReceiveOutcome::Created { alert, events, policy }) && alert@.external_id
                == raw.external_id@ && alert@.source == raw.source@ && alert@.severity
                == severity_of(lowercase_of(raw.severity@)) && alert@.status == Status::Firing
                && alert@.labels == labels_view(&raw.labels) && alert@.fingerprint
                == fingerprint_of(labels_view(&raw.labels)) && alert@.summary == raw.summary@
                && alert@.created_at == now && alert@.acknowledged_at is None
                && alert@.resolved_at is None && routes_to(router@, labels_view(&raw.labels), policy)
                && events@.len() == 1 && (events@[0] matches DomainEvent::AlertReceived(e)
                && e.alert_id == alert@.id && e.source@ == raw.source@ && e.severity
                == alert@.severity && e.occurred_at == now),
        },
{
    let status = to_lowercase(raw.status.as_str());
    if is_resolved_status(status.as_str()) {
        let mut alert = match existing {
            Some(a) => a,
            None => return Err(AppError::Port(PortError::NotFound)),
        };
        let resolved_by = String::from_str("source:").concat(raw.source.as_str());
        proof {
            reveal_strlit("source:");
        }
        let events = match alert.resolve(resolved_by, now) {
            Ok(ev) => ev,
            Err(e) => return Err(AppError::Domain(e)),
        };
        return Ok(ReceiveOutcome::Resolved { alert, events });
    }
    if let Some(found) = existing {
        let fingerprint = Fingerprint::from_labels(&raw.labels);
        let alert_id = *found.id();
        let events = vec![
            DomainEvent::AlertDeduplicated(
                AlertDeduplicated {
                    alert_id,
                    fingerprint: fingerprint.to_string(),
                    occurred_at: now,
                },
            ),
        ];
        return Ok(ReceiveOutcome::Deduplicated { alert: found, events });
    }
    let severity = parse_severity(raw.severity.as_str());
    let policy = match router.match_alert(&raw.labels) {
        Some(p) => Some(*p),
        None => None,
    };
    let source = Source::new(raw.source.as_str());
    let (alert, events) = Alert::new(
        raw.external_id,
        source,
        severity,
        raw.labels,
        raw.summary,
        now,
    );
    Ok(ReceiveOutcome::Created { alert, events, policy })
}

/// Acknowledges the alert loaded for an id (`found`): `NotFound` when there is none, the
/// domain error when it is resolved, else the alert after the operation with its events
/// (empty when it was already acknowledged). With events, the caller cancels the alert's
/// escalations, stores it, then publishes.
pub fn plan_acknowledge(found: Option<Alert>, user_id: UserId, now: i64) -> (r: Result<
    (Alert, Vec<DomainEvent>),
    AppError,
>)
    ensures
        match found {
            None => r == Err::<(Alert, Vec<DomainEvent>), AppError>(
                AppError::Port(PortError::NotFound),
            ),
            Some(a) => match a@.status {
                Status::Resolved => r == Err::<(Alert, Vec<DomainEvent>), AppError>(
                    AppError::Domain(DomainError::AlertAlreadyResolved),
                ),
                Status::Acknowledged => r matches Ok((b, ev)) && b@ == a@ && ev@.len() == 0,
                Status::Firing => r matches Ok((b, ev)) && b@ == (AlertView {
                    status: Status::Acknowledged,
                    acknowledged_at: Some(now),
                    acknowledged_by: Some(user_id),
                    ..a@
                }) && ev@ == seq![
                    DomainEvent::AlertAcknowledged(
                        AlertAcknowledged { alert_id: a@.id, user_id, occurred_at: now },
                    ),
                ],
            },
        },
{
    let mut alert = match found {
        Some(a) => a,
        None => return Err(AppError::Port(PortError::NotFound)),
    };
    match alert.acknowledge(user_id, now) {
        Ok(events) => Ok((alert, events)),
        Err(e) => Err(AppError::Domain(e)),
    }
}

/// Resolves the alert loaded for an id (`found`): `NotFound` when there is none, else the alert
/// after the operation with its events (empty when it was already resolved).
pub fn plan_resolve(found: Option<Alert>, resolved_by: String, now: i64) -> (r: Result<
    (Alert, Vec<DomainEvent>),
    AppError,
>)
    ensures
        match found {
            None => r == Err::<(Alert, Vec<DomainEvent>), AppError>(
                AppError::Port(PortError::NotFound),
            ),
            Some(a) => r matches Ok((b, ev)) && if a@.status == Status::Resolved {
                b@ == a@ && ev@.len() == 0
            } else {
                b@ == (AlertView { status: Status::Resolved, resolved_at: Some(now), ..a@ })
                    && ev@.len() == 1 && (ev@[0] matches DomainEvent::AlertResolved(e)
                    && e.alert_id == a@.id && e.resolved_by == resolved_by && e.occurred_at == now)
            },
        },
{
    let mut alert = match found {
        Some(a) => a,
        None => return Err(AppError::Port(PortError::NotFound)),
    };
    match alert.resolve(resolved_by, now) {
        Ok(events) => Ok((alert, events)),
        Err(e) => Err(AppError::Domain(e)),
    }
}

} // verus!
