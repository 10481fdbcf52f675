use vstd::prelude::*;

use crate::channel::{Channel, QueueStatus};
use crate::escalation::{
    next_step_index, EscalationPolicy, EscalationTarget, OnCallModifier,
};
use crate::events::{AlertEscalated, DomainEvent, EscalationExhausted};
use crate::ids::{uuid_text_of, AlertId, UserId};
use crate::ports::PendingEscalation;
use crate::schedule::{on_call_at, rotation_index, rotation_secs, Schedule};
use crate::user::Team;

verus! {

/// The users a target stands for at `now`: a user is itself; a team is its members (when the
/// loaded `team` is that team); an on-call target is the schedule's current on-call user, or
/// the next participant in rotation order (when the loaded `schedule` is that schedule).
/// Nothing when the needed team or schedule was not found.
pub fn resolve_target(
    target: &EscalationTarget,
    team: Option<&Team>,
    schedule: Option<&Schedule>,
    now: i64,
) -> (r: Vec<UserId>)
    ensures
        match *target {
            EscalationTarget::User(u) => r@ == seq![u],
            EscalationTarget::Team(tid) => match team {
                Some(t) if t@.id == tid => r@ == t@.members,
                _ => r@.len() == 0,
            },
            EscalationTarget::OnCall { schedule_id, modifier } => match schedule {
                Some(s) if s@.id == schedule_id => match modifier {
                    OnCallModifier::Current => r@ == seq![on_call_at(s@, now as int)],
                    OnCallModifier::Next => r@ == seq![
                        s@.participants[(rotation_index(
                            now - s@.epoch,
                            rotation_secs(s@.rotation),
                            s@.participants.len() as int,
                        ) + 1) % (s@.participants.len() as int)],
                    ],
                },
                _ => r@.len() == 0,
            },
        },
{
    match target {
        EscalationTarget::User(u) => vec![*u],
        EscalationTarget::Team(tid) => match team {
            Some(t) => {
                if *t.id() == *tid {
                    let members = t.members();
                    let mut out: Vec<UserId> = Vec::new();
                    let mut i: usize = 0;
                    while i < members.len()
                        invariant
                            0 <= i <= members@.len(),
                            out@ == members@.subrange(0, i as int),
                        decreases members@.len() - i,
                    {
                        out.push(members[i]);
                        proof {
                            assert(out@ =~= members@.subrange(0, i + 1));
                        }
                        i = i + 1;
                    }
                    proof {
                        assert(members@.subrange(0, members@.len() as int) =~= members@);
                    }
                    out
                } else {
                    Vec::new()
                }
            },
            None => Vec::new(),
        },
        EscalationTarget::OnCall { schedule_id, modifier } => match schedule {
            Some(s) => {
                if *s.id() == *schedule_id {
                    match modifier {
                        OnCallModifier::Current => vec![s.who_is_on_call(now)],
                        OnCallModifier::Next => vec![s.next_on_call(now)],
                    }
                } else {
                    Vec::new()
                }
            },
            None => Vec::new(),
        },
    }
}

/// The first escalation row of a newly routed alert: the step at index 0 of `policy`, on the
/// first run through it, pending, firing after that step's wait.
pub fn first_escalation(alert_id: AlertId, policy: &EscalationPolicy, row_id: String, now: i64) -> (r:
    PendingEscalation)
    requires
        policy@.steps.len() > 0,
        now + policy@.steps[0]@.wait_seconds <= i64::MAX,
    ensures
        r.id@ == row_id@,
        r.alert_id == alert_id,
        r.policy_id == policy@.id,
        r.step_order == 0,
        r.repetition == 0,
        r.fires_at == now + policy@.steps[0]@.wait_seconds,
        r.status == QueueStatus::Pending,
{
    let wait = policy.first_step().wait_seconds();
    PendingEscalation {
        id: row_id,
        alert_id,
        policy_id: *policy.id(),
        step_order: 0,
        repetition: 0,
        fires_at: (now as i128 + wait as i128) as i64,
        status: QueueStatus::Pending,
    }
}

/// One notification to queue: a recipient and the channel to reach them through.
#[derive(Debug, Clone, Copy, PartialEq, Eq, Structural)]
pub struct Delivery {
    pub recipient: UserId,
    pub channel: Channel,
}

/// Every `(recipient, channel)` pair, recipients outermost, in the given orders.
pub open spec fn deliveries_of(recipients: Seq<UserId>, channels: Seq<Channel>) -> Seq<Delivery>
    decreases recipients.len(),
{
    if recipients.len() == 0 {
        Seq::empty()
    } else {
        deliveries_of(recipients.drop_last(), channels) + channels.map_values(
            |c: Channel| Delivery { recipient: recipients.last(), channel: c },
        )
    }
}

/// What firing one due escalation row amounts to.
#[derive(Debug)]
pub struct StepFiring {
    /// The notifications to queue, each due at once.
    pub deliveries: Vec<Delivery>,
    /// `AlertEscalated`, followed by `EscalationExhausted` when no step follows.
    pub events: Vec<DomainEvent>,
    /// The next row to queue, when a step follows.
    pub next: Option<PendingEscalation>,
}

/// Fires the step at index `row.step_order` of `policy` on repetition `row.repetition`: one
/// delivery per recipient and channel of the step, an `AlertEscalated` event carrying the row's
/// step and naming the recipients, and either the next row (id `next_id`, firing after the next
/// step's wait, one repetition later when it wraps to the first step) or an
/// `EscalationExhausted` event.
pub fn plan_step_firing(
    row: &PendingEscalation,
    policy: &EscalationPolicy,
    recipients: Vec<UserId>,
    next_id: String,
    now: i64,
) -> (r: StepFiring)
    requires
        (row.step_order as int) < policy@.steps.len() <= u32::MAX,
        forall|i: int|
            0 <= i < policy@.steps.len() ==> now + (#[trigger] policy@.steps[i])@.wait_seconds
                <= i64::MAX,
    ensures
        r.deliveries@ == deliveries_of(
            recipients@,
            policy@.steps[row.step_order as int]@.channels,
        ),
        r.events@.len() >= 1,
        r.events@[0] matches DomainEvent::AlertEscalated(e) && e.alert_id == row.alert_id
            && e.step == row.step_order && e.occurred_at == now
            && e.targets@.len() == recipients@.len() && forall|i: int|
            0 <= i < recipients@.len() ==> (#[trigger] e.targets@[i])@ == uuid_text_of(
                recipients@[i].0,
            ),
        match next_step_index(
            row.step_order as int,
            row.repetition as int,
            policy@.steps.len() as int,
            policy@.repeat_count as int,
        ) {
            Some(k) => r.events@.len() == 1 && (r.next matches Some(n) && n.id@ == next_id@
                && n.alert_id == row.alert_id && n.policy_id == row.policy_id && n.step_order == k
                && n.repetition == (if row.step_order + 1 < policy@.steps.len() {
                row.repetition as int
            } else {
                row.repetition + 1
            }) && n.fires_at == now + policy@.steps[k]@.wait_seconds && n.status
                == QueueStatus::Pending),
            None => r.next is None && r.events@.len() == 2 && r.events@[1] == DomainEvent::EscalationExhausted(
                EscalationExhausted {
                    alert_id: row.alert_id,
                    policy_id: row.policy_id,
                    occurred_at: now,
                },
            ),
        },
{
    let steps = policy.steps();
    let step = &steps[row.step_order as usize];
    let channels = step.channels();

    let mut deliveries: Vec<Delivery> = Vec::new();
    let mut targets: Vec<String> = Vec::new();
    let mut i: usize = 0;
    while i < recipients.len()
        invariant
            0 <= i <= recipients@.len(),
            deliveries@ == deliveries_of(recipients@.subrange(0, i as int), channels@),
            targets@.len() == i,
            forall|k: int|
                0 <= k < i ==> (#[trigger] targets@[k])@ == uuid_text_of(recipients@[k].0),
        decreases recipients@.len() - i,
    {
        let who = recipients[i];
        let ghost before = deliveries@;
        let mut j: usize = 0;
        while j < channels.len()
            invariant
                0 <= j <= channels@.len(),
                deliveries@ == before + channels@.subrange(0, j as int).map_values(
                    |c: Channel| Delivery { recipient: who, channel: c },
                ),
            decreases channels@.len() - j,
        {
            deliveries.push(Delivery { recipient: who, channel: channels[j] });
            proof {
                assert(channels@.subrange(0, j + 1).map_values(
                    |c: Channel| Delivery { recipient: who, channel: c },
                ) =~= channels@.subrange(0, j as int).map_values(
                    |c: Channel| Delivery { recipient: who, channel: c },
                ).push(Delivery { recipient: who, channel: channels@[j as int] }));
            }
            j = j + 1;
        }
        proof {
            assert(channels@.subrange(0, channels@.len() as int) =~= channels@);
            let pre = recipients@.subrange(0, i + 1);
            assert(pre.drop_last() =~= recipients@.subrange(0, i as int));
            assert(pre.last() == who);
        }
        targets.push(who.to_string());
        i = i + 1;
    }
    proof {
        assert(recipients@.subrange(0, recipients@.len() as int) =~= recipients@);
    }

    let mut events: Vec<DomainEvent> = vec![
        DomainEvent::AlertEscalated(
            AlertEscalated { alert_id: row.alert_id, step: row.step_order, targets, occurred_at: now },
        ),
    ];

    let current = row.step_order;
    let wraps = (current as usize) + 1 >= steps.len();
    let next_index: usize = if wraps {
        0
    } else {
        current as usize + 1
    };
    let next = match policy.next_step(current, row.repetition) {
        Some(following) => {
            Some(
                PendingEscalation {
                    id: next_id,
                    alert_id: row.alert_id,
                    policy_id: row.policy_id,
                    step_order: next_index as u32,
                    repetition: if wraps {
                        row.repetition + 1
                    } else {
                        row.repetition
                    },
                    fires_at: (now as i128 + following.wait_seconds() as i128) as i64,
                    status: QueueStatus::Pending,
                },
            )
        },
        None => {
            events.push(
                DomainEvent::EscalationExhausted(
                    EscalationExhausted {
                        alert_id: row.alert_id,
                        policy_id: row.policy_id,
                        occurred_at: now,
                    },
                ),
            );
            None
        },
    };
    StepFiring { deliveries, events, next }
}

} // verus!
