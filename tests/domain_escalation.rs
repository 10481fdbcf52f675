use rouse::channel::Channel;
use rouse::error::DomainError;
use rouse::escalation::{EscalationPolicy, EscalationStep, EscalationTarget, OnCallModifier};
use rouse::ids::{ScheduleId, UserId};

fn make_step(order: u32, wait: u64) -> EscalationStep {
    EscalationStep::new(
        order,
        wait,
        vec![EscalationTarget::User(UserId::new())],
        vec![Channel::Slack],
    )
}

#[test]
fn policy_requires_at_least_one_step() {
    let result = EscalationPolicy::new("empty".into(), vec![], 0);
    assert!(matches!(result, Err(DomainError::PolicyRequiresStep)));
}

#[test]
fn step_zero_wait_is_zero() {
    let step = make_step(0, 0);
    let policy = EscalationPolicy::new("p".into(), vec![step], 0).unwrap();
    assert_eq!(policy.first_step().wait_seconds(), 0);
}

#[test]
fn next_step_returns_correct() {
    let steps = vec![make_step(0, 0), make_step(1, 600)];
    let policy = EscalationPolicy::new("p".into(), steps, 0).unwrap();
    let next = policy.next_step(0, 0).unwrap();
    assert_eq!(next.order(), 1);
    assert_eq!(next.wait_seconds(), 600);
}

#[test]
fn next_step_after_last_no_repeat_returns_none() {
    let steps = vec![make_step(0, 0), make_step(1, 600)];
    let policy = EscalationPolicy::new("p".into(), steps, 0).unwrap();
    assert!(policy.next_step(1, 0).is_none());
}

#[test]
fn next_step_after_last_with_repeat_loops() {
    let steps = vec![make_step(0, 0), make_step(1, 600)];
    let policy = EscalationPolicy::new("p".into(), steps, 2).unwrap();
    let next = policy.next_step(1, 0).unwrap();
    assert_eq!(next.order(), 0);
}

#[test]
fn repeat_exhausted_returns_none() {
    let steps = vec![make_step(0, 0)];
    let policy = EscalationPolicy::new("p".into(), steps, 1).unwrap();
    assert!(policy.next_step(0, 1).is_none());
}

#[test]
fn next_step_at_largest_index_does_not_overflow() {
    let policy = EscalationPolicy::new("p".into(), vec![make_step(0, 0)], 0).unwrap();
    assert!(policy.next_step(u32::MAX, 0).is_none());
}

#[test]
fn step_requires_target() {
    let mut policy = EscalationPolicy::new("p".into(), vec![make_step(0, 0)], 0).unwrap();
    let step = EscalationStep::new(1, 600, vec![], vec![Channel::Slack]);
    let result = policy.add_step(step);
    assert!(matches!(result, Err(DomainError::StepRequiresTarget)));
    assert_eq!(policy.steps().len(), 1);
}

#[test]
fn step_requires_channel() {
    let mut policy = EscalationPolicy::new("p".into(), vec![make_step(0, 0)], 0).unwrap();
    let step = EscalationStep::new(1, 600, vec![EscalationTarget::User(UserId::new())], vec![]);
    let result = policy.add_step(step);
    assert!(matches!(result, Err(DomainError::StepRequiresChannel)));
}

#[test]
fn add_valid_step_appends() {
    let mut policy = EscalationPolicy::new("p".into(), vec![make_step(0, 0)], 0).unwrap();
    let events = policy.add_step(make_step(1, 300)).unwrap();
    assert!(events.is_empty());
    assert_eq!(policy.steps().len(), 2);
    assert_eq!(policy.next_step(0, 0).unwrap().wait_seconds(), 300);
    assert_eq!(policy.name(), "p");
    assert_eq!(policy.repeat_count(), 0);
}

#[test]
fn channel_enum_is_exhaustive() {
    let channels = [
        Channel::Slack,
        Channel::Discord,
        Channel::Telegram,
        Channel::WhatsApp,
        Channel::Sms,
        Channel::Phone,
        Channel::Email,
        Channel::Webhook,
    ];
    assert_eq!(channels.len(), 8);
}

#[test]
fn oncall_target_with_modifier() {
    let target = EscalationTarget::OnCall {
        schedule_id: ScheduleId::new(),
        modifier: OnCallModifier::Next,
    };
    assert!(matches!(
        target,
        EscalationTarget::OnCall {
            modifier: OnCallModifier::Next,
            ..
        }
    ));
}

#[test]
fn step_preserves_order_and_wait() {
    let step = EscalationStep::new(
        2,
        300,
        vec![EscalationTarget::User(UserId::new())],
        vec![Channel::Slack],
    );
    assert_eq!(step.order(), 2);
    assert_eq!(step.wait_seconds(), 300);
}

#[test]
fn step_preserves_targets_and_channels() {
    let step = EscalationStep::new(
        0,
        0,
        vec![EscalationTarget::User(UserId::new())],
        vec![Channel::Slack, Channel::Sms],
    );
    assert_eq!(step.targets().len(), 1);
    assert_eq!(step.channels().len(), 2);
}
