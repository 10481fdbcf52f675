use vstd::prelude::*;

verus! {

/// Contract violations of the domain model; never retried.
#[derive(Debug, Clone, PartialEq, Eq)]
pub enum DomainError {
    AlertAlreadyResolved,
    ScheduleRequiresParticipant,
    InvalidPhoneFormat,
    InvalidOverridePeriod,
    InvalidId(String),
    PolicyRequiresStep,
    StepRequiresTarget,
    StepRequiresChannel,
    TeamRequiresMember,
    /// The rotation epoch has no single instant in the schedule's time zone.
    InvalidTimezone,
    /// A rotation period is not a positive number of seconds.
    InvalidRotationPeriod,
}

/// Failures of the persistence and queue adapters.
#[derive(Debug, Clone, PartialEq, Eq)]
pub enum PortError {
    NotFound,
    Persistence(String),
    Connection(String),
}

/// Failures reported by a channel adapter while delivering a notification.
#[derive(Debug, Clone, PartialEq, Eq)]
pub enum NotifyError {
    ChannelUnavailable,
    RateLimited,
    InvalidTarget,
    DeliveryFailed(String),
}

/// Failures of an inbound payload parser.
#[derive(Debug, Clone, PartialEq, Eq)]
pub enum ParseError {
    InvalidJson(String),
    MissingField(String),
    InvalidPayload(String),
}

/// Errors surfaced by the application services.
#[derive(Debug, Clone, PartialEq, Eq)]
pub enum AppError {
    Domain(DomainError),
    Port(PortError),
    Parse(ParseError),
    Routing(String),
}

} // verus!
