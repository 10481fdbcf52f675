use vstd::prelude::*;

use crate::channel::Channel;
use crate::error::DomainError;
use crate::events::DomainEvent;
use crate::ids::{PolicyId, ScheduleId, TeamId, UserId};

verus! {

/// Which on-call user of a schedule a target means.
#[derive(Debug, Clone, Copy, PartialEq, Eq, Structural)]
pub enum OnCallModifier {
    Current,
    Next,
}

/// Whom an escalation step notifies.
#[derive(Debug, Clone, Copy, PartialEq, Eq, Structural)]
pub enum EscalationTarget {
    OnCall { schedule_id: ScheduleId, modifier: OnCallModifier },
    User(UserId),
    Team(TeamId),
}

/// One stage of a policy as plain values.
pub struct EscalationStepView {
    pub order: u32,
    pub wait_seconds: u64,
    pub targets: Seq<EscalationTarget>,
    pub channels: Seq<Channel>,
}

/// One stage of an escalation policy: how long to wait, whom to notify, and through which
/// channels.
#[derive(Debug, Clone, PartialEq, Eq)]
pub struct EscalationStep {
    order: u32,
    wait_seconds: u64,
    targets: Vec<EscalationTarget>,
    channels: Vec<Channel>,
}

impl View for EscalationStep {
    type V = EscalationStepView;

    closed spec fn view(&self) -> EscalationStepView {
        EscalationStepView {
            order: self.order,
            wait_seconds: self.wait_seconds,
            targets: self.targets@,
            channels: self.channels@,
        }
    }
}

impl EscalationStep {
    pub fn new(
        order: u32,
        wait_seconds: u64,
        targets: Vec<EscalationTarget>,
        channels: Vec<Channel>,
    ) -> (r: EscalationStep)
        ensures
            r@ == (EscalationStepView {
                order,
                wait_seconds,
                targets: targets@,
                channels: channels@,
            }),
    {
        EscalationStep { order, wait_seconds, targets, channels }
    }

    pub fn order(&self) -> (r: u32)
        ensures
            r == self@.order,
    {
        self.order
    }

    pub fn wait_seconds(&self) -> (r: u64)
        ensures
            r == self@.wait_seconds,
    {
        self.wait_seconds
    }

    pub fn targets(&self) -> (r: &[EscalationTarget])
        ensures
            r@ == self@.targets,
    {
        self.targets.as_slice()
    }

    pub fn channels(&self) -> (r: &[Channel])
        ensures
            r@ == self@.channels,
    {
        self.channels.as_slice()
    }
}

/// A policy as plain values.
pub struct EscalationPolicyView {
    pub id: PolicyId,
    pub name: Seq<char>,
    pub steps: Seq<EscalationStep>,
    pub repeat_count: u32,
}

/// Which step follows step `current` on repetition `repetition`: the next one in order, else
/// the first one again while repetitions remain, else none (the policy is exhausted).
pub open spec fn next_step_index(current: int, repetition: int, len: int, repeat_count: int) -> Option<
    int,
> {
    if current + 1 < len {
        Some(current + 1)
    } else if repetition < repeat_count {
        Some(0)
    } else {
        None
    }
}

/// An ordered list of escalation steps, run through `repeat_count` more times after the first.
#[derive(Debug, Clone)]
pub struct EscalationPolicy {
    id: PolicyId,
    name: String,
    steps: Vec<EscalationStep>,
    repeat_count: u32,
}

impl View for EscalationPolicy {
    type V = EscalationPolicyView;

    closed spec fn view(&self) -> EscalationPolicyView {
        EscalationPolicyView {
            id: self.id,
            name: self.name@,
            steps: self.steps@,
            repeat_count: self.repeat_count,
        }
    }
}

impl EscalationPolicy {
    /// Fails with `PolicyRequiresStep` exactly when `steps` is empty.
    pub fn new(name: String, steps: Vec<EscalationStep>, repeat_count: u32) -> (r: Result<
        EscalationPolicy,
        DomainError,
    >)
        ensures
            steps@.len() == 0 <==> r == Err::<EscalationPolicy, DomainError>(
                DomainError::PolicyRequiresStep,
            ),
            steps@.len() > 0 ==> r is Ok,
            r matches Ok(p) ==> p@.name == name@ && p@.steps == steps@ && p@.repeat_count
                == repeat_count && p@.steps.len() > 0,
    {
        if steps.len() == 0 {
            return Err(DomainError::PolicyRequiresStep);
        }
        Ok(EscalationPolicy { id: PolicyId::new(), name, steps, repeat_count })
    }

    /// Rebuilds a stored policy; fails with `PolicyRequiresStep` exactly when `steps` is empty.
    pub fn restore(id: PolicyId, name: String, steps: Vec<EscalationStep>, repeat_count: u32) -> (r:
        Result<EscalationPolicy, DomainError>)
        ensures
            steps@.len() == 0 <==> r == Err::<EscalationPolicy, DomainError>(
                DomainError::PolicyRequiresStep,
            ),
            steps@.len() > 0 ==> r is Ok,
            r matches Ok(p) ==> p@ == (EscalationPolicyView {
                id,
                name: name@,
                steps: steps@,
                repeat_count,
            }),
    {
        if steps.len() == 0 {
            return Err(DomainError::PolicyRequiresStep);
        }
        Ok(EscalationPolicy { id, name, steps, repeat_count })
    }

    /// The step after `current` on repetition `repetition`, per `next_step_index`.
    pub fn next_step(&self, current: u32, repetition: u32) -> (r: Option<&EscalationStep>)
        requires
            self@.steps.len() > 0,
        ensures
            match next_step_index(
                current as int,
                repetition as int,
                self@.steps.len() as int,
                self@.repeat_count as int,
            ) {
                Some(i) => r matches Some(s) && 0 <= i < self@.steps.len() && *s == self@.steps[i],
                None => r is None,
            },
    {
        let next: u64 = current as u64 + 1;
        if next < self.steps.len() as u64 {
            Some(&self.steps[next as usize])
        } else if repetition < self.repeat_count {
            Some(&self.steps[0])
        } else {
            None
        }
    }

    /// Appends a step; fails with `StepRequiresTarget` when it has no target, else with
    /// `StepRequiresChannel` when it has no channel, leaving the policy unchanged.
    pub fn add_step(&mut self, step: EscalationStep) -> (r: Result<Vec<DomainEvent>, DomainError>)
        ensures
            step@.targets.len() == 0 ==> r == Err::<Vec<DomainEvent>, DomainError>(
                DomainError::StepRequiresTarget,
            ) && final(self)@ == old(self)@,
            step@.targets.len() > 0 && step@.channels.len() == 0 ==> r == Err::<
                Vec<DomainEvent>,
                DomainError,
            >(DomainError::StepRequiresChannel) && final(self)@ == old(self)@,
            step@.targets.len() > 0 && step@.channels.len() > 0 ==> (r matches Ok(ev) && ev@.len()
                == 0 && final(self)@ == (EscalationPolicyView {
                steps: old(self)@.steps.push(step),
                ..old(self)@
            })),
    {
        if step.targets().len() == 0 {
            return Err(DomainError::StepRequiresTarget);
        }
        if step.channels().len() == 0 {
            return Err(DomainError::StepRequiresChannel);
        }
        self.steps.push(step);
        Ok(Vec::new())
    }

    pub fn first_step(&self) -> (r: &EscalationStep)
        requires
            self@.steps.len() > 0,
        ensures
            *r == self@.steps[0],
    {
        &self.steps[0]
    }

    pub fn id(&self) -> (r: &PolicyId)
        ensures
            *r == self@.id,
    {
        &self.id
    }

    pub fn name(&self) -> (r: &str)
        ensures
            r@ == self@.name,
    {
        self.name.as_str()
    }

    pub fn steps(&self) -> (r: &[EscalationStep])
        ensures
            r@ == self@.steps,
    {
        self.steps.as_slice()
    }

    pub fn repeat_count(&self) -> (r: u32)
        ensures
            r == self@.repeat_count,
    {
        self.repeat_count
    }
}

} // verus!
