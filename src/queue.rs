use vstd::prelude::*;

use crate::channel::QueueStatus;
use crate::error::NotifyError;
use crate::events::{DomainEvent, NotificationFailed, NotificationSent};
use crate::ids::AlertId;
use crate::ports::{
    NotifyResult, PendingEscalation, PendingEscalationView, PendingNotification,
    PendingNotificationView,
};
use crate::text::str_eq;

verus! {

/// A row the escalation worker must handle at `now`: pending, and due.
pub open spec fn escalation_due(r: PendingEscalationView, now: int) -> bool {
    r.status == QueueStatus::Pending && r.fires_at <= now
}

/// A row as it is queued: pending, whatever status it was handed in with.
pub open spec fn as_pending(r: PendingEscalationView) -> PendingEscalationView {
    PendingEscalationView { status: QueueStatus::Pending, ..r }
}

/// The rows due at `now`, in queue order.
pub open spec fn due_escalations(rows: Seq<PendingEscalationView>, now: int) -> Seq<
    PendingEscalationView,
>
    decreases rows.len(),
{
    if rows.len() == 0 {
        Seq::empty()
    } else {
        let earlier = due_escalations(rows.drop_last(), now);
        if escalation_due(rows.last(), now) {
            earlier.push(rows.last())
        } else {
            earlier
        }
    }
}

/// Rows ordered by firing time, earliest first.
pub open spec fn in_firing_order(rows: Seq<PendingEscalationView>) -> bool {
    forall|i: int, j: int| 0 <= i < j < rows.len() ==> #[trigger] rows[i].fires_at <= #[trigger] rows[j].fires_at
}

/// The rows after cancelling every pending row of `alert_id`.
pub open spec fn cancel_rows(rows: Seq<PendingEscalationView>, alert_id: AlertId) -> Seq<
    PendingEscalationView,
> {
    rows.map_values(
        |r: PendingEscalationView|
            if r.alert_id == alert_id && r.status == QueueStatus::Pending {
                PendingEscalationView { status: QueueStatus::Cancelled, ..r }
            } else {
                r
            },
    )
}

/// The rows after marking every row with id `id` as fired.
pub open spec fn fire_rows(rows: Seq<PendingEscalationView>, id: Seq<char>) -> Seq<
    PendingEscalationView,
> {
    rows.map_values(
        |r: PendingEscalationView|
            if r.id == id {
                PendingEscalationView { status: QueueStatus::Sent, ..r }
            } else {
                r
            },
    )
}

/// The queue of escalation steps waiting to fire, kept in firing order.
#[derive(Debug)]
pub struct EscalationStepQueue {
    rows: Vec<PendingEscalation>,
}

impl View for EscalationStepQueue {
    type V = Seq<PendingEscalationView>;

    closed spec fn view(&self) -> Seq<PendingEscalationView> {
        self.rows@.map_values(|r: PendingEscalation| r@)
    }
}

impl EscalationStepQueue {
    pub fn new() -> (r: EscalationStepQueue)
        ensures
            r@.len() == 0,
    {
        let r = EscalationStepQueue { rows: Vec::new() };
        assert(r@ =~= Seq::empty());
        r
    }

    /// Queues a step as pending, after every row that fires no later than it does.
    pub fn enqueue_step(&mut self, step: PendingEscalation)
        requires
            in_firing_order(old(self)@),
        ensures
            in_firing_order(final(self)@),
            exists|pos: int|
                0 <= pos <= old(self)@.len() && final(self)@ == #[trigger] old(self)@.insert(
                    pos,
                    as_pending(step@),
                ) && (forall|i: int| 0 <= i < pos ==> #[trigger] old(self)@[i].fires_at <= step.fires_at)
                    && (forall|i: int|
                    pos <= i < old(self)@.len() ==> #[trigger] old(self)@[i].fires_at > step.fires_at),
    {
        let mut pos: usize = 0;
        while pos < self.rows.len() && self.rows[pos].fires_at <= step.fires_at
            invariant
                0 <= pos <= self@.len(),
                self@ == old(self)@,
                in_firing_order(self@),
                forall|i: int| 0 <= i < pos ==> #[trigger] self@[i].fires_at <= step.fires_at,
            decreases self@.len() - pos,
        {
            pos = pos + 1;
        }
        proof {
            assert forall|i: int| pos <= i < self@.len() implies #[trigger] self@[i].fires_at
                > step.fires_at by {
                assert(self@[pos as int].fires_at > step.fires_at);
                assert(self@[pos as int].fires_at <= self@[i].fires_at || i == pos);
            }
        }
        let row = PendingEscalation { status: QueueStatus::Pending, ..step };
        let ghost v = row@;
        self.rows.insert(pos, row);
        proof {
            assert(self@ =~= old(self)@.insert(pos as int, v));
            assert(v == as_pending(step@));
            assert forall|i: int, j: int| 0 <= i < j < self@.len() implies #[trigger] self@[i].fires_at
                <= #[trigger] self@[j].fires_at by {
                if i < pos && j > pos {
                    assert(self@[j] == old(self)@[j - 1]);
                    assert(old(self)@[i].fires_at <= old(self)@[j - 1].fires_at);
                } else if i < pos && j < pos {
                    assert(old(self)@[i].fires_at <= old(self)@[j].fires_at);
                } else if i > pos {
                    assert(old(self)@[i - 1].fires_at <= old(self)@[j - 1].fires_at);
                } else if i == pos {
                    assert(self@[j] == old(self)@[j - 1]);
                } else {
                    assert(self@[i] == old(self)@[i]);
                }
            }
        }
    }

    /// The pending rows whose firing time is at or before `now`, earliest first.
    pub fn poll_due(&self, now: i64) -> (r: Vec<PendingEscalation>)
        requires
            in_firing_order(self@),
        ensures
            r@.map_values(|x: PendingEscalation| x@) == due_escalations(self@, now as int),
            in_firing_order(r@.map_values(|x: PendingEscalation| x@)),
    {
        let mut out: Vec<PendingEscalation> = Vec::new();
        let mut i: usize = 0;
        while i < self.rows.len()
            invariant
                0 <= i <= self@.len(),
                in_firing_order(self@),
                out@.map_values(|x: PendingEscalation| x@) == due_escalations(
                    self@.subrange(0, i as int),
                    now as int,
                ),
                forall|k: int|
                    0 <= k < out@.len() ==> exists|j: int|
                        0 <= j < i && (#[trigger] out@[k])@ == self@[j],
                in_firing_order(out@.map_values(|x: PendingEscalation| x@)),
            decreases self@.len() - i,
        {
            let row = &self.rows[i];
            proof {
                let pre = self@.subrange(0, i + 1);
                assert(pre.drop_last() =~= self@.subrange(0, i as int));
                assert(pre.last() == row@);
            }
            if row.status == QueueStatus::Pending && row.fires_at <= now {
                let ghost before = out@;
                out.push(row.duplicate());
                proof {
                    assert(out@.map_values(|x: PendingEscalation| x@) =~= before.map_values(
                        |x: PendingEscalation| x@,
                    ).push(row@));
                    assert forall|k: int| 0 <= k < out@.len() implies exists|j: int|
                        0 <= j < i + 1 && (#[trigger] out@[k])@ == self@[j] by {
                        if k < before.len() {
                            assert(out@[k] == before[k]);
                        } else {
                            assert(out@[k]@ == self@[i as int]);
                        }
                    }
                    let m = out@.map_values(|x: PendingEscalation| x@);
                    assert forall|a: int, b: int| 0 <= a < b < m.len() implies #[trigger] m[a].fires_at
                        <= #[trigger] m[b].fires_at by {
                        if b == m.len() - 1 && a < b {
                            assert(m[a] == before[a]@);
                            let j = choose|j: int| 0 <= j < i && (#[trigger] before[a])@ == self@[j];
                            assert(self@[j].fires_at <= self@[i as int].fires_at);
                        } else {
                            assert(m[a] == before.map_values(|x: PendingEscalation| x@)[a]);
                            assert(m[b] == before.map_values(|x: PendingEscalation| x@)[b]);
                        }
                    }
                }
            } else {
                proof {
                    assert forall|k: int| 0 <= k < out@.len() implies exists|j: int|
                        0 <= j < i + 1 && (#[trigger] out@[k])@ == self@[j] by {
                        let j = choose|j: int| 0 <= j < i && (#[trigger] out@[k])@ == self@[j];
                    }
                }
            }
            i = i + 1;
        }
        assert(self@.subrange(0, self@.len() as int) =~= self@);
        out
    }

    /// Cancels every pending row of `alert_id`; rows already fired or cancelled stay as they are.
    pub fn cancel_for_alert(&mut self, alert_id: AlertId)
        requires
            in_firing_order(old(self)@),
        ensures
            final(self)@ == cancel_rows(old(self)@, alert_id),
            in_firing_order(final(self)@),
    {
        let mut i: usize = 0;
        while i < self.rows.len()
            invariant
                0 <= i <= self@.len(),
                self@.len() == old(self)@.len(),
                forall|k: int| 0 <= k < i ==> #[trigger] self@[k] == cancel_rows(old(self)@, alert_id)[k],
                forall|k: int| i <= k < self@.len() ==> #[trigger] self@[k] == old(self)@[k],
            decreases self@.len() - i,
        {
            proof {
                assert(self.rows@[i as int]@ == self@[i as int]);
                assert(self@[i as int] == old(self)@[i as int]);
            }
            if self.rows[i].alert_id == alert_id && self.rows[i].status == QueueStatus::Pending {
                let ghost before = self@;
                let mut row = self.rows[i].duplicate();
                row.status = QueueStatus::Cancelled;
                self.rows.set(i, row);
                proof {
                    assert forall|k: int| 0 <= k < self@.len() && k != i implies #[trigger] self@[k]
                        == before[k] by {}
                }
            }
            assert(self@[i as int] == cancel_rows(old(self)@, alert_id)[i as int]);
            i = i + 1;
        }
        assert(self@ =~= cancel_rows(old(self)@, alert_id));
    }

    /// Marks every row with id `id` as fired.
    pub fn mark_fired(&mut self, id: &str)
        requires
            in_firing_order(old(self)@),
        ensures
            final(self)@ == fire_rows(old(self)@, id@),
            in_firing_order(final(self)@),
    {
        let mut i: usize = 0;
        while i < self.rows.len()
            invariant
                0 <= i <= self@.len(),
                self@.len() == old(self)@.len(),
                forall|k: int| 0 <= k < i ==> #[trigger] self@[k] == fire_rows(old(self)@, id@)[k],
                forall|k: int| i <= k < self@.len() ==> #[trigger] self@[k] == old(self)@[k],
            decreases self@.len() - i,
        {
            proof {
                assert(self.rows@[i as int]@ == self@[i as int]);
                assert(self@[i as int] == old(self)@[i as int]);
            }
            if str_eq(self.rows[i].id.as_str(), id) {
                let ghost before = self@;
                let mut row = self.rows[i].duplicate();
                row.status = QueueStatus::Sent;
                self.rows.set(i, row);
                proof {
                    assert forall|k: int| 0 <= k < self@.len() && k != i implies #[trigger] self@[k]
                        == before[k] by {}
                }
            }
            assert(self@[i as int] == fire_rows(old(self)@, id@)[i as int]);
            i = i + 1;
        }
        assert(self@ =~= fire_rows(old(self)@, id@));
    }
}

proof fn lemma_due_rows_come_from(rows: Seq<PendingEscalationView>, now: int)
    ensures
        forall|k: int|
            0 <= k < due_escalations(rows, now).len() ==> escalation_due(
                #[trigger] due_escalations(rows, now)[k],
                now,
            ) && rows.contains(due_escalations(rows, now)[k]),
    decreases rows.len(),
{
    if rows.len() > 0 {
        let rest = rows.drop_last();
        lemma_due_rows_come_from(rest, now);
        assert forall|k: int| 0 <= k < due_escalations(rows, now).len() implies escalation_due(
            #[trigger] due_escalations(rows, now)[k],
            now,
        ) && rows.contains(due_escalations(rows, now)[k]) by {
            let x = due_escalations(rows, now)[k];
            if k < due_escalations(rest, now).len() {
                assert(x == due_escalations(rest, now)[k]);
                let j = choose|j: int| 0 <= j < rest.len() && rest[j] == x;
                assert(rows[j] == x);
            } else {
                assert(x == rows.last());
                assert(rows[rows.len() - 1] == x);
            }
        }
    }
}

/// Once the rows of an alert are cancelled, polling at any time yields none of them.
pub proof fn lemma_cancelled_alert_never_due(
    rows: Seq<PendingEscalationView>,
    alert_id: AlertId,
    now: int,
)
    ensures
        forall|k: int|
            0 <= k < due_escalations(cancel_rows(rows, alert_id), now).len() ==> (#[trigger] due_escalations(
                cancel_rows(rows, alert_id),
                now,
            )[k]).alert_id != alert_id,
{
    let cancelled = cancel_rows(rows, alert_id);
    lemma_due_rows_come_from(cancelled, now);
    assert forall|k: int| 0 <= k < due_escalations(cancelled, now).len() implies (
    #[trigger] due_escalations(cancelled, now)[k]).alert_id != alert_id by {
        let x = due_escalations(cancelled, now)[k];
        let j = choose|j: int| 0 <= j < cancelled.len() && cancelled[j] == x;
        assert(cancelled[j] == x);
    }
}

/// A notification the worker must attempt at `now`: pending, and due.
pub open spec fn notification_due(r: PendingNotificationView, now: int) -> bool {
    r.status == QueueStatus::Pending && r.next_attempt_at <= now
}

/// The notifications due at `now`, in queue order.
pub open spec fn due_notifications(rows: Seq<PendingNotificationView>, now: int) -> Seq<
    PendingNotificationView,
>
    decreases rows.len(),
{
    if rows.len() == 0 {
        Seq::empty()
    } else {
        let earlier = due_notifications(rows.drop_last(), now);
        if notification_due(rows.last(), now) {
            earlier.push(rows.last())
        } else {
            earlier
        }
    }
}

/// Rows ordered by next attempt time, earliest first.
pub open spec fn in_attempt_order(rows: Seq<PendingNotificationView>) -> bool {
    forall|i: int, j: int|
        0 <= i < j < rows.len() ==> #[trigger] rows[i].next_attempt_at <= #[trigger] rows[j].next_attempt_at
}

/// The rows after setting the status of every row with id `id`.
pub open spec fn set_notification_status(
    rows: Seq<PendingNotificationView>,
    id: Seq<char>,
    status: QueueStatus,
) -> Seq<PendingNotificationView> {
    rows.map_values(
        |r: PendingNotificationView|
            if r.id == id {
                PendingNotificationView { status, ..r }
            } else {
                r
            },
    )
}

/// A failed row made due again: pending at `next_attempt_at`, one more retry counted (the
/// count stays at its maximum once there).
pub open spec fn rescheduled(r: PendingNotificationView, next_attempt_at: i64) -> PendingNotificationView {
    PendingNotificationView {
        status: QueueStatus::Pending,
        next_attempt_at,
        retry_count: if r.retry_count < u32::MAX {
            (r.retry_count + 1) as u32
        } else {
            r.retry_count
        },
        ..r
    }
}

/// `rows` with `row` inserted after every row due no later than it, keeping attempt order.
pub open spec fn inserted_in_attempt_order(
    before: Seq<PendingNotificationView>,
    after: Seq<PendingNotificationView>,
    row: PendingNotificationView,
) -> bool {
    exists|pos: int|
        0 <= pos <= before.len() && after == #[trigger] before.insert(pos, row) && (forall|i: int|
            0 <= i < pos ==> #[trigger] before[i].next_attempt_at <= row.next_attempt_at) && (
        forall|i: int|
            pos <= i < before.len() ==> #[trigger] before[i].next_attempt_at > row.next_attempt_at)
}

/// The queue of outbound notifications, kept in order of their next attempt.
#[derive(Debug)]
pub struct NotificationOutbox {
    rows: Vec<PendingNotification>,
}

impl View for NotificationOutbox {
    type V = Seq<PendingNotificationView>;

    closed spec fn view(&self) -> Seq<PendingNotificationView> {
        self.rows@.map_values(|r: PendingNotification| r@)
    }
}

impl NotificationOutbox {
    pub fn new() -> (r: NotificationOutbox)
        ensures
            r@.len() == 0,
    {
        let r = NotificationOutbox { rows: Vec::new() };
        assert(r@ =~= Seq::empty());
        r
    }

    fn insert_in_order(&mut self, row: PendingNotification)
        requires
            in_attempt_order(old(self)@),
        ensures
            in_attempt_order(final(self)@),
            inserted_in_attempt_order(old(self)@, final(self)@, row@),
    {
        let mut pos: usize = 0;
        while pos < self.rows.len() && self.rows[pos].next_attempt_at <= row.next_attempt_at
            invariant
                0 <= pos <= self@.len(),
                self@ == old(self)@,
                in_attempt_order(self@),
                forall|i: int| 0 <= i < pos ==> #[trigger] self@[i].next_attempt_at <= row.next_attempt_at,
            decreases self@.len() - pos,
        {
            pos = pos + 1;
        }
        proof {
            assert forall|i: int| pos <= i < self@.len() implies #[trigger] self@[i].next_attempt_at
                > row.next_attempt_at by {
                assert(self@[pos as int].next_attempt_at > row.next_attempt_at);
                assert(self@[pos as int].next_attempt_at <= self@[i].next_attempt_at || i == pos);
            }
        }
        let ghost v = row@;
        self.rows.insert(pos, row);
        proof {
            assert(self@ =~= old(self)@.insert(pos as int, v));
            assert forall|i: int, j: int| 0 <= i < j < self@.len() implies #[trigger] self@[i].next_attempt_at
                <= #[trigger] self@[j].next_attempt_at by {
                if i < pos && j > pos {
                    assert(self@[j] == old(self)@[j - 1]);
                    assert(old(self)@[i].next_attempt_at <= old(self)@[j - 1].next_attempt_at);
                } else if i < pos && j < pos {
                    assert(old(self)@[i].next_attempt_at <= old(self)@[j].next_attempt_at);
                } else if i > pos {
                    assert(old(self)@[i - 1].next_attempt_at <= old(self)@[j - 1].next_attempt_at);
                } else if i == pos {
                    assert(self@[j] == old(self)@[j - 1]);
                } else {
                    assert(self@[i] == old(self)@[i]);
                }
            }
        }
    }

    /// Queues a notification after every row attempted no later than it.
    pub fn enqueue(&mut self, notification: PendingNotification)
        requires
            in_attempt_order(old(self)@),
        ensures
            in_attempt_order(final(self)@),
            inserted_in_attempt_order(old(self)@, final(self)@, notification@),
    {
        self.insert_in_order(notification);
    }

    /// The pending rows whose next attempt is at or before `now`, earliest first.
    pub fn poll_pending(&self, now: i64) -> (r: Vec<PendingNotification>)
        requires
            in_attempt_order(self@),
        ensures
            r@.map_values(|x: PendingNotification| x@) == due_notifications(self@, now as int),
    {
        let mut out: Vec<PendingNotification> = Vec::new();
        let mut i: usize = 0;
        while i < self.rows.len()
            invariant
                0 <= i <= self@.len(),
                out@.map_values(|x: PendingNotification| x@) == due_notifications(
                    self@.subrange(0, i as int),
                    now as int,
                ),
            decreases self@.len() - i,
        {
            let row = &self.rows[i];
            proof {
                let pre = self@.subrange(0, i + 1);
                assert(pre.drop_last() =~= self@.subrange(0, i as int));
                assert(pre.last() == row@);
            }
            if row.status == QueueStatus::Pending && row.next_attempt_at <= now {
                let ghost before = out@;
                out.push(row.duplicate());
                proof {
                    assert(out@.map_values(|x: PendingNotification| x@) =~= before.map_values(
                        |x: PendingNotification| x@,
                    ).push(row@));
                }
            }
            i = i + 1;
        }
        assert(self@.subrange(0, self@.len() as int) =~= self@);
        out
    }

    fn set_status(&mut self, id: &str, status: QueueStatus)
        requires
            in_attempt_order(old(self)@),
        ensures
            final(self)@ == set_notification_status(old(self)@, id@, status),
            in_attempt_order(final(self)@),
    {
        let mut i: usize = 0;
        while i < self.rows.len()
            invariant
                0 <= i <= self@.len(),
                self@.len() == old(self)@.len(),
                forall|k: int|
                    0 <= k < i ==> #[trigger] self@[k] == set_notification_status(old(self)@, id@, status)[k],
                forall|k: int| i <= k < self@.len() ==> #[trigger] self@[k] == old(self)@[k],
            decreases self@.len() - i,
        {
            proof {
                assert(self.rows@[i as int]@ == self@[i as int]);
                assert(self@[i as int] == old(self)@[i as int]);
            }
            if str_eq(self.rows[i].id.as_str(), id) {
                let ghost before = self@;
                let mut row = self.rows[i].duplicate();
                row.status = status;
                self.rows.set(i, row);
                proof {
                    assert forall|k: int| 0 <= k < self@.len() && k != i implies #[trigger] self@[k]
                        == before[k] by {}
                }
            }
            assert(self@[i as int] == set_notification_status(old(self)@, id@, status)[i as int]);
            i = i + 1;
        }
        assert(self@ =~= set_notification_status(old(self)@, id@, status));
    }

    /// Marks every row with id `id` as sent.
    pub fn mark_sent(&mut self, id: &str)
        requires
            in_attempt_order(old(self)@),
        ensures
            final(self)@ == set_notification_status(old(self)@, id@, QueueStatus::Sent),
            in_attempt_order(final(self)@),
    {
        self.set_status(id, QueueStatus::Sent);
    }

    /// Marks every row with id `id` as dead.
    pub fn mark_dead(&mut self, id: &str)
        requires
            in_attempt_order(old(self)@),
        ensures
            final(self)@ == set_notification_status(old(self)@, id@, QueueStatus::Dead),
            in_attempt_order(final(self)@),
    {
        self.set_status(id, QueueStatus::Dead);
    }

    /// Reschedules the first row with id `id` after a failed attempt: it is pending again at
    /// `next_attempt_at` with one more retry counted, and moves to its place in attempt order.
    /// A no-op when no row has that id.
    pub fn mark_failed(&mut self, id: &str, next_attempt_at: i64)
        requires
            in_attempt_order(old(self)@),
        ensures
            in_attempt_order(final(self)@),
            (forall|k: int| 0 <= k < old(self)@.len() ==> (#[trigger] old(self)@[k]).id != id@)
                ==> final(self)@ == old(self)@,
            forall|k: int|
                0 <= k < old(self)@.len() && (#[trigger] old(self)@[k]).id == id@ && (forall|j: int|
                    0 <= j < k ==> (#[trigger] old(self)@[j]).id != id@) ==> inserted_in_attempt_order(
                    old(self)@.remove(k),
                    final(self)@,
                    rescheduled(old(self)@[k], next_attempt_at),
                ),
    {
        let mut i: usize = 0;
        while i < self.rows.len()
            invariant
                0 <= i <= self@.len(),
                self@ == old(self)@,
                in_attempt_order(old(self)@),
                forall|j: int| 0 <= j < i ==> (#[trigger] self@[j]).id != id@,
            decreases self@.len() - i,
        {
            proof {
                assert(self.rows@[i as int]@ == self@[i as int]);
            }
            if str_eq(self.rows[i].id.as_str(), id) {
                let mut row = self.rows.remove(i);
                proof {
                    assert(self@ =~= old(self)@.remove(i as int));
                    assert forall|a: int, b: int| 0 <= a < b < self@.len() implies #[trigger] self@[a].next_attempt_at
                        <= #[trigger] self@[b].next_attempt_at by {
                        let oa = if a < i { a } else { a + 1 };
                        let ob = if b < i { b } else { b + 1 };
                        assert(self@[a] == old(self)@[oa]);
                        assert(self@[b] == old(self)@[ob]);
                        assert(old(self)@[oa].next_attempt_at <= old(self)@[ob].next_attempt_at);
                    }
                }
                let ghost removed = self@;
                let ghost original = row@;
                row.status = QueueStatus::Pending;
                row.next_attempt_at = next_attempt_at;
                if row.retry_count < u32::MAX {
                    row.retry_count = row.retry_count + 1;
                }
                assert(row@ == rescheduled(original, next_attempt_at));
                self.insert_in_order(row);
                proof {
                    assert forall|k: int|
                        0 <= k < old(self)@.len() && (#[trigger] old(self)@[k]).id == id@ && (forall|j: int|
                            0 <= j < k ==> (#[trigger] old(self)@[j]).id != id@) implies k == i by {
                        if k > i {
                            assert(old(self)@[i as int].id == id@);
                        }
                    }
                }
                return;
            }
            i = i + 1;
        }
    }
}

/// Retries start 30 seconds apart.
pub const BASE_BACKOFF_SECS: i64 = 30;

/// Retries are never more than an hour apart.
pub const MAX_BACKOFF_SECS: i64 = 3600;

/// A notification is given up after this many failed attempts.
pub const MAX_DELIVERY_ATTEMPTS: u32 = 10;

/// `2^n`.
pub open spec fn two_to(n: nat) -> nat
    decreases n,
{
    if n == 0 {
        1
    } else {
        2 * two_to((n - 1) as nat)
    }
}

/// The wait before the next attempt after `retry_count` earlier retries:
/// `min(30 * 2^retry_count, 3600)` seconds.
pub open spec fn backoff_spec(retry_count: nat) -> int {
    let b = BASE_BACKOFF_SECS * two_to(retry_count);
    if b < MAX_BACKOFF_SECS {
        b
    } else {
        MAX_BACKOFF_SECS as int
    }
}

proof fn lemma_two_to_monotone(a: nat, b: nat)
    requires
        a <= b,
    ensures
        two_to(a) <= two_to(b),
    decreases b - a,
{
    if a < b {
        lemma_two_to_monotone(a, (b - 1) as nat);
    }
}

/// The exponential backoff, in seconds, before retrying after `retry_count` retries.
pub fn backoff(retry_count: u32) -> (r: i64)
    ensures
        r == backoff_spec(retry_count as nat),
{
    let mut b: i64 = BASE_BACKOFF_SECS;
    let mut k: u32 = 0;
    while k < retry_count && b < MAX_BACKOFF_SECS
        invariant
            0 <= k <= retry_count,
            b == BASE_BACKOFF_SECS * two_to(k as nat),
            b <= 2 * MAX_BACKOFF_SECS,
        decreases retry_count - k,
    {
        b = b * 2;
        k = k + 1;
    }
    if b >= MAX_BACKOFF_SECS {
        proof {
            lemma_two_to_monotone(k as nat, retry_count as nat);
        }
        MAX_BACKOFF_SECS
    } else {
        b
    }
}

/// What becomes of a notification whose delivery failed.
#[derive(Debug, Clone, Copy, PartialEq, Eq, Structural)]
pub enum RetryDecision {
    /// Try again at the given time, with the retry count incremented.
    Retry { next_attempt_at: i64 },
    /// Give up: the row is marked dead.
    Dead,
}

/// Whether a delivery error may be retried at all.
pub open spec fn retryable(e: NotifyError) -> bool {
    !(e is InvalidTarget)
}

/// The retry policy: an invalid target is dead at once; so is a notification whose failed
/// attempts reach `MAX_DELIVERY_ATTEMPTS`; otherwise it is retried after `backoff`.
pub fn on_delivery_failure(error: &NotifyError, retry_count: u32, now: i64) -> (r: RetryDecision)
    requires
        now <= i64::MAX - MAX_BACKOFF_SECS,
    ensures
        !retryable(*error) || retry_count as int + 1 >= MAX_DELIVERY_ATTEMPTS ==> r
            == RetryDecision::Dead,
        retryable(*error) && retry_count as int + 1 < MAX_DELIVERY_ATTEMPTS ==> r
            == (RetryDecision::Retry { next_attempt_at: (now + backoff_spec(retry_count as nat)) as i64 }),
{
    match error {
        NotifyError::InvalidTarget => RetryDecision::Dead,
        _ => {
            if retry_count >= MAX_DELIVERY_ATTEMPTS - 1 {
                RetryDecision::Dead
            } else {
                RetryDecision::Retry { next_attempt_at: now + backoff(retry_count) }
            }
        },
    }
}

/// The text of a delivery error.
pub open spec fn notify_error_text(e: NotifyError) -> Seq<char> {
    match e {
        NotifyError::ChannelUnavailable => "channel unavailable"@,
        NotifyError::RateLimited => "rate limited"@,
        NotifyError::InvalidTarget => "invalid target"@,
        NotifyError::DeliveryFailed(detail) => "delivery failed: "@ + detail@,
    }
}

impl NotifyError {
    /// A human-readable description of the error.
    pub fn message(&self) -> (r: String)
        ensures
            r@ == notify_error_text(*self),
    {
        match self {
            NotifyError::ChannelUnavailable => String::from_str("channel unavailable"),
            NotifyError::RateLimited => String::from_str("rate limited"),
            NotifyError::InvalidTarget => String::from_str("invalid target"),
            NotifyError::DeliveryFailed(detail) => {
                String::from_str("delivery failed: ").concat(detail.as_str())
            },
        }
    }
}

/// How a queued notification row changes after one delivery attempt.
#[derive(Debug, Clone, Copy, PartialEq, Eq, Structural)]
pub enum RowUpdate {
    /// Delivered: the row is marked sent.
    MarkSent,
    /// Failed, to be retried: the row is marked failed, its retry count incremented, and it is
    /// due again at `next_attempt_at`.
    MarkFailed { next_attempt_at: i64 },
    /// Failed for good: the row is marked dead.
    MarkDead,
}

/// The outcome of one delivery attempt of a queued notification: the event to publish and the
/// update to its row.
pub fn after_delivery(
    row: &PendingNotification,
    result: Result<NotifyResult, NotifyError>,
    now: i64,
) -> (r: (DomainEvent, RowUpdate))
    requires
        now <= i64::MAX - MAX_BACKOFF_SECS,
    ensures
        match result {
            Ok(sent) => r.1 == RowUpdate::MarkSent && (r.0 matches DomainEvent::NotificationSent(e)
                && e.alert_id == row.alert_id && e.channel == row.channel && e.target@ == row.target@
                && e.external_id == sent.external_id && e.occurred_at == now),
            Err(err) => (r.0 matches DomainEvent::NotificationFailed(e) && e.alert_id == row.alert_id
                && e.channel == row.channel && e.target@ == row.target@ && e.error@
                == notify_error_text(err) && e.occurred_at == now) && match on_delivery_failure_spec(
                err,
                row.retry_count,
                now,
            ) {
                RetryDecision::Retry { next_attempt_at } => r.1 == RowUpdate::MarkFailed {
                    next_attempt_at,
                },
                RetryDecision::Dead => r.1 == RowUpdate::MarkDead,
            },
        },
{
    match result {
        Ok(sent) => {
            let event = DomainEvent::NotificationSent(
                NotificationSent {
                    alert_id: row.alert_id,
                    channel: row.channel,
                    target: row.target.clone(),
                    external_id: sent.external_id,
                    occurred_at: now,
                },
            );
            (event, RowUpdate::MarkSent)
        },
        Err(err) => {
            let event = DomainEvent::NotificationFailed(
                NotificationFailed {
                    alert_id: row.alert_id,
                    channel: row.channel,
                    target: row.target.clone(),
                    error: err.message(),
                    occurred_at: now,
                },
            );
            let update = match on_delivery_failure(&err, row.retry_count, now) {
                RetryDecision::Retry { next_attempt_at } => RowUpdate::MarkFailed { next_attempt_at },
                RetryDecision::Dead => RowUpdate::MarkDead,
            };
            (event, update)
        },
    }
}

/// The decision of the retry policy, as `on_delivery_failure` makes it.
pub open spec fn on_delivery_failure_spec(error: NotifyError, retry_count: u32, now: i64) -> RetryDecision {
    if !retryable(error) || retry_count as int + 1 >= MAX_DELIVERY_ATTEMPTS {
        RetryDecision::Dead
    } else {
        RetryDecision::Retry { next_attempt_at: (now + backoff_spec(retry_count as nat)) as i64 }
    }
}

} // verus!
