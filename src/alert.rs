use vstd::prelude::*;

use std::collections::BTreeMap;

use crate::error::DomainError;
use crate::events::{AlertAcknowledged, AlertReceived, AlertResolved, DomainEvent};
use crate::ids::{AlertId, UserId};

verus! {

/// How urgent an alert is.
#[derive(Debug, Clone, Copy, PartialEq, Eq, Hash, Structural)]
pub enum Severity {
    Critical,
    Warning,
    Info,
}

/// Where an alert stands in its lifecycle.
#[derive(Debug, Clone, Copy, PartialEq, Eq, Hash, Structural)]
pub enum Status {
    Firing,
    Acknowledged,
    Resolved,
}

/// Position of a status along `Firing -> Acknowledged -> Resolved`.
pub open spec fn status_rank(s: Status) -> int {
    match s {
        Status::Firing => 0,
        Status::Acknowledged => 1,
        Status::Resolved => 2,
    }
}

/// The transitions an alert may take in one operation (staying put included).
pub open spec fn status_step_allowed(from: Status, to: Status) -> bool {
    from == to || (from == Status::Firing && to == Status::Acknowledged) || (from
        == Status::Firing && to == Status::Resolved) || (from == Status::Acknowledged && to
        == Status::Resolved)
}

/// The label map of an alert as text keys to text values.
pub open spec fn labels_view(labels: &BTreeMap<String, String>) -> Map<Seq<char>, Seq<char>> {
    labels.deep_view()
}

/// The hash of a label map, fed its `(key, value)` pairs in ascending key order.
pub uninterp spec fn label_hash_of(labels: Map<Seq<char>, Seq<char>>) -> u64;

/// Relies on `std::hash::DefaultHasher` built by `new` (fixed keys): hashing each key and
/// value of the map in its ascending iteration order, then `finish`. The result depends on the
/// map's contents alone.
#[verifier::external_body]
fn label_hash(labels: &BTreeMap<String, String>) -> (r: u64)
    ensures
        r == label_hash_of(labels_view(labels)),
{
    let mut hasher = std::hash::DefaultHasher::new();
    for (k, v) in labels {
        std::hash::Hash::hash(k, &mut hasher);
        std::hash::Hash::hash(v, &mut hasher);
    }
    std::hash::Hasher::finish(&hasher)
}

/// Relies on `BTreeMap::get`: the value stored under `key`, if any (cloned).
#[verifier::external_body]
pub(crate) fn label_value(labels: &BTreeMap<String, String>, key: &str) -> (r: Option<String>)
    ensures
        match r {
            Some(v) => labels_view(labels).contains_key(key@) && labels_view(labels)[key@] == v@,
            None => !labels_view(labels).contains_key(key@),
        },
{
    labels.get(key).cloned()
}

/// Relies on `BTreeMap::into_iter` of a clone: each entry of the map exactly once.
#[verifier::external_body]
pub(crate) fn label_entries(labels: &BTreeMap<String, String>) -> (r: Vec<(String, String)>)
    ensures
        forall|i: int|
            0 <= i < r@.len() ==> labels_view(labels).contains_key((#[trigger] r@[i]).0@)
                && labels_view(labels)[r@[i].0@] == r@[i].1@,
        forall|k: Seq<char>|
            #[trigger] labels_view(labels).contains_key(k) ==> exists|i: int|
                0 <= i < r@.len() && (#[trigger] r@[i]).0@ == k,
{
    labels.clone().into_iter().collect()
}

/// The lowercase hex digit of a value below 16.
pub open spec fn hex_digit(n: nat) -> char {
    if n < 10 {
        (('0' as nat) + n) as char
    } else {
        (('a' as nat) + n - 10) as char
    }
}

/// The last `count` lowercase hex digits of `x`, most significant first.
pub open spec fn hex_digits(x: nat, count: nat) -> Seq<char>
    decreases count,
{
    if count == 0 {
        Seq::empty()
    } else {
        hex_digits(x / 16, (count - 1) as nat).push(hex_digit(x % 16))
    }
}

/// The fingerprint text of a label map: its hash as 16 lowercase hex digits.
pub open spec fn fingerprint_of(labels: Map<Seq<char>, Seq<char>>) -> Seq<char> {
    hex_digits(label_hash_of(labels) as nat, 16)
}

fn hex_char(n: u64) -> (r: &'static str)
    requires
        n < 16,
    ensures
        r@ == seq![hex_digit(n as nat)],
{
    proof {
        reveal_strlit("0");
        reveal_strlit("1");
        reveal_strlit("2");
        reveal_strlit("3");
        reveal_strlit("4");
        reveal_strlit("5");
        reveal_strlit("6");
        reveal_strlit("7");
        reveal_strlit("8");
        reveal_strlit("9");
        reveal_strlit("a");
        reveal_strlit("b");
        reveal_strlit("c");
        reveal_strlit("d");
        reveal_strlit("e");
        reveal_strlit("f");
    }
    let r = match n {
        0 => "0",
        1 => "1",
        2 => "2",
        3 => "3",
        4 => "4",
        5 => "5",
        6 => "6",
        7 => "7",
        8 => "8",
        9 => "9",
        10 => "a",
        11 => "b",
        12 => "c",
        13 => "d",
        14 => "e",
        _ => "f",
    };
    assert(r@ =~= seq![hex_digit(n as nat)]);
    r
}

/// Formats `x` as exactly 16 lowercase hex digits, zero-padded.
fn hex16(x: u64) -> (r: String)
    ensures
        r@ == hex_digits(x as nat, 16),
        r@.len() == 16,
{
    let mut acc = String::new();
    let mut y: u64 = x;
    let mut k: u64 = 0;
    while k < 16
        invariant
            0 <= k <= 16,
            acc@.len() == k,
            hex_digits(x as nat, 16) == hex_digits(y as nat, (16 - k) as nat) + acc@,
        decreases 16 - k,
    {
        let d = hex_char(y % 16);
        let next = String::from_str(d).concat(acc.as_str());
        proof {
            let rest = hex_digits((y / 16) as nat, (15 - k) as nat);
            assert(hex_digits(y as nat, (16 - k) as nat) == rest.push(hex_digit((y % 16) as nat)));
            assert(rest.push(hex_digit((y % 16) as nat)) + acc@ =~= rest + next@);
        }
        acc = next;
        y = y / 16;
        k = k + 1;
    }
    assert(hex_digits(y as nat, 0) + acc@ =~= acc@);
    acc
}

/// The name of the system an alert came from.
#[derive(Debug, Clone, PartialEq, Eq)]
pub struct Source(String);

impl View for Source {
    type V = Seq<char>;

    closed spec fn view(&self) -> Seq<char> {
        self.0@
    }
}

impl Source {
    pub fn new(name: &str) -> (r: Source)
        ensures
            r@ == name@,
    {
        Source(String::from_str(name))
    }

    pub fn as_str(&self) -> (r: &str)
        ensures
            r@ == self@,
    {
        self.0.as_str()
    }
}

/// A deterministic digest of an alert's labels, used to deduplicate alerts.
#[derive(Debug, Clone, PartialEq, Eq, Hash)]
pub struct Fingerprint(String);

impl View for Fingerprint {
    type V = Seq<char>;

    closed spec fn view(&self) -> Seq<char> {
        self.0@
    }
}

impl Fingerprint {
    /// Hashes the `(key, value)` pairs in ascending key order; 16 lowercase hex digits.
    pub fn from_labels(labels: &BTreeMap<String, String>) -> (r: Fingerprint)
        ensures
            r@ == fingerprint_of(labels_view(labels)),
            r@.len() == 16,
    {
        Fingerprint(hex16(label_hash(labels)))
    }

    pub fn as_str(&self) -> (r: &str)
        ensures
            r@ == self@,
    {
        self.0.as_str()
    }

    /// The digest as an owned string.
    pub fn to_string(&self) -> (r: String)
        ensures
            r@ == self@,
    {
        self.0.clone()
    }
}

/// The state of an alert as the domain sees it. Times are seconds since the Unix epoch, UTC.
pub struct AlertView {
    pub id: AlertId,
    pub external_id: Seq<char>,
    pub source: Seq<char>,
    pub severity: Severity,
    pub status: Status,
    pub fingerprint: Seq<char>,
    pub labels: Map<Seq<char>, Seq<char>>,
    pub summary: Seq<char>,
    pub created_at: i64,
    pub acknowledged_at: Option<i64>,
    pub acknowledged_by: Option<UserId>,
    pub resolved_at: Option<i64>,
}

/// The part of an alert that its lifecycle operations change together.
#[derive(Debug, Clone, Copy)]
struct Lifecycle {
    status: Status,
    acknowledged_at: Option<i64>,
    acknowledged_by: Option<UserId>,
    resolved_at: Option<i64>,
}

/// A unit of ongoing incident state: `Firing -> Acknowledged -> Resolved`, or
/// `Firing -> Resolved`.
#[derive(Debug)]
pub struct Alert {
    id: AlertId,
    external_id: String,
    source: Source,
    severity: Severity,
    fingerprint: Fingerprint,
    labels: BTreeMap<String, String>,
    summary: String,
    created_at: i64,
    lifecycle: Lifecycle,
}

impl View for Alert {
    type V = AlertView;

    closed spec fn view(&self) -> AlertView {
        AlertView {
            id: self.id,
            external_id: self.external_id@,
            source: self.source@,
            severity: self.severity,
            status: self.lifecycle.status,
            fingerprint: self.fingerprint@,
            labels: labels_view(&self.labels),
            summary: self.summary@,
            created_at: self.created_at,
            acknowledged_at: self.lifecycle.acknowledged_at,
            acknowledged_by: self.lifecycle.acknowledged_by,
            resolved_at: self.lifecycle.resolved_at,
        }
    }
}

/// What always holds of an alert: the fingerprint follows the labels, and the
/// acknowledgement and resolution records match the status.
pub open spec fn alert_consistent(a: AlertView) -> bool {
    &&& a.fingerprint == fingerprint_of(a.labels)
    &&& (a.status == Status::Firing ==> a.acknowledged_at is None && a.acknowledged_by is None
        && a.resolved_at is None)
    &&& (a.status == Status::Acknowledged ==> a.acknowledged_at is Some && a.acknowledged_by is Some
        && a.resolved_at is None)
    &&& (a.status == Status::Resolved ==> a.resolved_at is Some)
    &&& (a.acknowledged_at is Some <==> a.acknowledged_by is Some)
}

impl Alert {
    #[verifier::type_invariant]
    spec fn consistent(&self) -> bool {
        alert_consistent(self@)
    }

    /// A new firing alert created at `now`, with its `AlertReceived` event.
    pub fn new(
        external_id: String,
        source: Source,
        severity: Severity,
        labels: BTreeMap<String, String>,
        summary: String,
        now: i64,
    ) -> (r: (Alert, Vec<DomainEvent>))
        ensures
            r.0@.external_id == external_id@,
            r.0@.source == source@,
            r.0@.severity == severity,
            r.0@.status == Status::Firing,
            r.0@.labels == labels_view(&labels),
            r.0@.fingerprint == fingerprint_of(labels_view(&labels)),
            r.0@.summary == summary@,
            r.0@.created_at == now,
            r.0@.acknowledged_at is None,
            r.0@.acknowledged_by is None,
            alert_consistent(r.0@),
            r.0@.resolved_at is None,
            r.1@.len() == 1,
            r.1@[0] matches DomainEvent::AlertReceived(e) && e.alert_id == r.0@.id && e.source@
                == source@ && e.severity == severity && e.occurred_at == now,
    {
        let id = AlertId::new();
        let fingerprint = Fingerprint::from_labels(&labels);
        let event_source = String::from_str(source.as_str());
        let alert = Alert {
            id,
            external_id,
            source,
            severity,
            fingerprint,
            labels,
            summary,
            created_at: now,
            lifecycle: Lifecycle {
                status: Status::Firing,
                acknowledged_at: None,
                acknowledged_by: None,
                resolved_at: None,
            },
        };
        let events = vec![
            DomainEvent::AlertReceived(
                AlertReceived { alert_id: id, source: event_source, severity, occurred_at: now },
            ),
        ];
        (alert, events)
    }

    /// Rebuilds a stored alert from its parts, recomputing the fingerprint from the labels;
    /// `None` when the acknowledgement and resolution records do not match the status.
    pub fn restore(
        id: AlertId,
        external_id: String,
        source: Source,
        severity: Severity,
        status: Status,
        labels: BTreeMap<String, String>,
        summary: String,
        created_at: i64,
        acknowledged_at: Option<i64>,
        acknowledged_by: Option<UserId>,
        resolved_at: Option<i64>,
    ) -> (r: Option<Alert>)
        ensures
            ({
                let v = AlertView {
                    id,
                    external_id: external_id@,
                    source: source@,
                    severity,
                    status,
                    fingerprint: fingerprint_of(labels_view(&labels)),
                    labels: labels_view(&labels),
                    summary: summary@,
                    created_at,
                    acknowledged_at,
                    acknowledged_by,
                    resolved_at,
                };
                &&& alert_consistent(v) ==> (r matches Some(a) && a@ == v)
                &&& !alert_consistent(v) ==> r is None
            }),
    {
        let consistent = match status {
            Status::Firing => acknowledged_at.is_none() && acknowledged_by.is_none()
                && resolved_at.is_none(),
            Status::Acknowledged => acknowledged_at.is_some() && acknowledged_by.is_some()
                && resolved_at.is_none(),
            Status::Resolved => resolved_at.is_some() && (acknowledged_at.is_some()
                == acknowledged_by.is_some()),
        };
        if !consistent {
            return None;
        }
        let fingerprint = Fingerprint::from_labels(&labels);
        Some(
            Alert {
                id,
                external_id,
                source,
                severity,
                fingerprint,
                labels,
                summary,
                created_at,
                lifecycle: Lifecycle { status, acknowledged_at, acknowledged_by, resolved_at },
            },
        )
    }

    pub fn external_id(&self) -> (r: &str)
        ensures
            r@ == self@.external_id,
    {
        self.external_id.as_str()
    }

    pub fn acknowledged_at(&self) -> (r: Option<i64>)
        ensures
            r == self@.acknowledged_at,
    {
        self.lifecycle.acknowledged_at
    }

    pub fn resolved_at(&self) -> (r: Option<i64>)
        ensures
            r == self@.resolved_at,
    {
        self.lifecycle.resolved_at
    }

    /// `Firing -> Acknowledged` with an `AlertAcknowledged` event; a no-op with no events when
    /// already acknowledged; `AlertAlreadyResolved` when resolved.
    pub fn acknowledge(&mut self, user_id: UserId, now: i64) -> (r: Result<
        Vec<DomainEvent>,
        DomainError,
    >)
        ensures
            alert_consistent(final(self)@),
            status_step_allowed(old(self)@.status, final(self)@.status),
            match old(self)@.status {
                Status::Resolved => r == Err::<Vec<DomainEvent>, DomainError>(
                    DomainError::AlertAlreadyResolved,
                ) && final(self)@ == old(self)@,
                Status::Acknowledged => r matches Ok(ev) && ev@.len() == 0 && final(self)@ == old(
                    self,
                )@,
                Status::Firing => r matches Ok(ev) && ev@ == seq![
                    DomainEvent::AlertAcknowledged(
                        AlertAcknowledged { alert_id: old(self)@.id, user_id, occurred_at: now },
                    ),
                ] && final(self)@ == (AlertView {
                    status: Status::Acknowledged,
                    acknowledged_at: Some(now),
                    acknowledged_by: Some(user_id),
                    ..old(self)@
                }),
            },
    {
        proof {
            use_type_invariant(&*self);
        }
        match self.lifecycle.status {
            Status::Resolved => Err(DomainError::AlertAlreadyResolved),
            Status::Acknowledged => Ok(Vec::new()),
            Status::Firing => {
                self.lifecycle = Lifecycle {
                    status: Status::Acknowledged,
                    acknowledged_at: Some(now),
                    acknowledged_by: Some(user_id),
                    resolved_at: None,
                };
                Ok(
                    vec![
                        DomainEvent::AlertAcknowledged(
                            AlertAcknowledged { alert_id: self.id, user_id, occurred_at: now },
                        ),
                    ],
                )
            },
        }
    }

    /// `Firing | Acknowledged -> Resolved` with an `AlertResolved` event; an idempotent no-op
    /// with no events when already resolved. Never fails.
    pub fn resolve(&mut self, resolved_by: String, now: i64) -> (r: Result<
        Vec<DomainEvent>,
        DomainError,
    >)
        ensures
            alert_consistent(final(self)@),
            status_step_allowed(old(self)@.status, final(self)@.status),
            old(self)@.status == Status::Resolved ==> (r matches Ok(ev) && ev@.len() == 0
                && final(self)@ == old(self)@),
            old(self)@.status != Status::Resolved ==> (r matches Ok(ev) && ev@ == seq![
                DomainEvent::AlertResolved(
                    AlertResolved { alert_id: old(self)@.id, resolved_by, occurred_at: now },
                ),
            ] && final(self)@ == (AlertView {
                status: Status::Resolved,
                resolved_at: Some(now),
                ..old(self)@
            })),
    {
        proof {
            use_type_invariant(&*self);
        }
        match self.lifecycle.status {
            Status::Resolved => Ok(Vec::new()),
            _ => {
                self.lifecycle = Lifecycle {
                    status: Status::Resolved,
                    resolved_at: Some(now),
                    ..self.lifecycle
                };
                Ok(
                    vec![
                        DomainEvent::AlertResolved(
                            AlertResolved { alert_id: self.id, resolved_by, occurred_at: now },
                        ),
                    ],
                )
            },
        }
    }

    pub fn id(&self) -> (r: &AlertId)
        ensures
            *r == self@.id,
    {
        &self.id
    }

    pub fn status(&self) -> (r: Status)
        ensures
            r == self@.status,
    {
        self.lifecycle.status
    }

    pub fn severity(&self) -> (r: Severity)
        ensures
            r == self@.severity,
    {
        self.severity
    }

    pub fn fingerprint(&self) -> (r: &Fingerprint)
        ensures
            r@ == self@.fingerprint,
    {
        &self.fingerprint
    }

    pub fn source(&self) -> (r: &Source)
        ensures
            r@ == self@.source,
    {
        &self.source
    }

    pub fn labels(&self) -> (r: &BTreeMap<String, String>)
        ensures
            labels_view(r) == self@.labels,
    {
        &self.labels
    }

    pub fn summary(&self) -> (r: &str)
        ensures
            r@ == self@.summary,
    {
        self.summary.as_str()
    }

    pub fn acknowledged_by(&self) -> (r: Option<&UserId>)
        ensures
            match r {
                Some(u) => self@.acknowledged_by == Some(*u),
                None => self@.acknowledged_by is None,
            },
    {
        match &self.lifecycle.acknowledged_by {
            Some(u) => Some(u),
            None => None,
        }
    }

    pub fn created_at(&self) -> (r: i64)
        ensures
            r == self@.created_at,
    {
        self.created_at
    }

}

/// The fingerprint depends on the contents of the label map alone: two label maps with the same
/// entries, however and wherever they were built, get the same 16-digit fingerprint.
pub proof fn lemma_fingerprint_deterministic(a: &BTreeMap<String, String>, b: &BTreeMap<String, String>)
    requires
        labels_view(a) == labels_view(b),
    ensures
        fingerprint_of(labels_view(a)) == fingerprint_of(labels_view(b)),
        fingerprint_of(labels_view(a)).len() == 16,
{
    lemma_hex_digits_len(label_hash_of(labels_view(a)) as nat, 16);
}

/// `hex_digits(x, count)` has `count` digits.
pub proof fn lemma_hex_digits_len(x: nat, count: nat)
    ensures
        hex_digits(x, count).len() == count,
    decreases count,
{
    if count > 0 {
        lemma_hex_digits_len(x / 16, (count - 1) as nat);
    }
}

/// Along any run of lifecycle operations on an alert (each step one allowed transition, starting
/// from the firing state of a new alert), the status never moves backwards: the statuses seen,
/// repeats aside, form a prefix of `Firing, Acknowledged, Resolved` or of `Firing, Resolved`.
pub proof fn lemma_status_history_monotone(history: Seq<Status>)
    requires
        history.len() > 0,
        history[0] == Status::Firing,
        forall|i: int|
            0 <= i < history.len() - 1 ==> status_step_allowed(history[i], #[trigger] history[i + 1]),
    ensures
        forall|i: int, j: int|
            0 <= i <= j < history.len() ==> status_rank(#[trigger] history[i]) <= status_rank(
                #[trigger] history[j],
            ),
    decreases history.len(),
{
    if history.len() > 1 {
        let prefix = history.drop_last();
        assert forall|i: int| 0 <= i < prefix.len() - 1 implies status_step_allowed(
            prefix[i],
            #[trigger] prefix[i + 1],
        ) by {
            assert(status_step_allowed(history[i], history[i + 1]));
        }
        lemma_status_history_monotone(prefix);
        let last = history.len() - 1;
        let k = last - 1;
        assert(status_step_allowed(history[k], history[k + 1]));
        assert forall|i: int, j: int| 0 <= i <= j < history.len() implies status_rank(
            #[trigger] history[i],
        ) <= status_rank(#[trigger] history[j]) by {
            if j < last {
                assert(prefix[i] == history[i] && prefix[j] == history[j]);
            } else if i < last {
                assert(prefix[i] == history[i] && prefix[last - 1] == history[last - 1]);
            }
        }
    }
}

} // verus!
