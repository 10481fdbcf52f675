use vstd::prelude::*;

use crate::alert::{hex_digits, lemma_hex_digits_len};
use crate::error::DomainError;

verus! {

/// The canonical text of a UUID: its 32 lowercase hex digits in groups of 8-4-4-4-12 joined by
/// hyphens.
pub open spec fn uuid_text_of(value: u128) -> Seq<char> {
    let h = hex_digits(value as nat, 32);
    h.subrange(0, 8) + "-"@ + h.subrange(8, 12) + "-"@ + h.subrange(12, 16) + "-"@ + h.subrange(
        16,
        20,
    ) + "-"@ + h.subrange(20, 32)
}

/// What `Uuid::parse_str` makes of a text, as the 128-bit value of the UUID.
pub uninterp spec fn uuid_parse_of(text: Seq<char>) -> Option<u128>;

/// Relies on `uuid::Uuid::new_v4`: a random version-4 UUID, as its 128-bit value.
#[verifier::external_body]
fn fresh_uuid() -> (r: u128) {
    uuid::Uuid::new_v4().as_u128()
}

/// Relies on `uuid::Uuid::parse_str`: `Some` of the UUID's value when the text is a UUID.
#[verifier::external_body]
fn parse_uuid(s: &str) -> (r: Option<u128>)
    ensures
        r == uuid_parse_of(s@),
{
    match uuid::Uuid::parse_str(s) {
        Ok(u) => Some(u.as_u128()),
        Err(_) => None,
    }
}

/// Relies on `Display` of `uuid::Uuid`: the hyphenated lowercase form.
#[verifier::external_body]
fn uuid_text(value: u128) -> (r: String)
    ensures
        r@ == uuid_text_of(value),
{
    uuid::Uuid::from_u128(value).to_string()
}

/// Identifies an alert.
#[derive(Debug, Clone, Copy, PartialEq, Eq, Hash, Structural)]
pub struct AlertId(pub u128);

impl AlertId {
    /// A fresh random identifier.
    pub fn new() -> (r: AlertId) {
        AlertId(fresh_uuid())
    }

    /// Parses the text of a UUID; fails with `InvalidId("AlertId")` otherwise.
    pub fn parse(s: &str) -> (r: Result<AlertId, DomainError>)
        ensures
            match uuid_parse_of(s@) {
                Some(v) => r == Ok::<AlertId, DomainError>(AlertId(v)),
                None => r matches Err(DomainError::InvalidId(name)) && name@ == "AlertId"@,
            },
    {
        match parse_uuid(s) {
            Some(v) => Ok(AlertId(v)),
            None => Err(DomainError::InvalidId(String::from_str("AlertId"))),
        }
    }

    /// The hyphenated lowercase text of the identifier.
    pub fn to_string(&self) -> (r: String)
        ensures
            r@ == uuid_text_of(self.0),
            r@.len() == 36,
    {
        proof {
            lemma_hex_digits_len(self.0 as nat, 32);
            reveal_strlit("-");
        }
        uuid_text(self.0)
    }
}

/// Identifies a user.
#[derive(Debug, Clone, Copy, PartialEq, Eq, Hash, Structural)]
pub struct UserId(pub u128);

impl UserId {
    /// A fresh random identifier.
    pub fn new() -> (r: UserId) {
        UserId(fresh_uuid())
    }

    /// Parses the text of a UUID; fails with `InvalidId("UserId")` otherwise.
    pub fn parse(s: &str) -> (r: Result<UserId, DomainError>)
        ensures
            match uuid_parse_of(s@) {
                Some(v) => r == Ok::<UserId, DomainError>(UserId(v)),
                None => r matches Err(DomainError::InvalidId(name)) && name@ == "UserId"@,
            },
    {
        match parse_uuid(s) {
            Some(v) => Ok(UserId(v)),
            None => Err(DomainError::InvalidId(String::from_str("UserId"))),
        }
    }

    /// The hyphenated lowercase text of the identifier.
    pub fn to_string(&self) -> (r: String)
        ensures
            r@ == uuid_text_of(self.0),
            r@.len() == 36,
    {
        proof {
            lemma_hex_digits_len(self.0 as nat, 32);
            reveal_strlit("-");
        }
        uuid_text(self.0)
    }
}

/// Identifies an on-call schedule.
#[derive(Debug, Clone, Copy, PartialEq, Eq, Hash, Structural)]
pub struct ScheduleId(pub u128);

impl ScheduleId {
    /// A fresh random identifier.
    pub fn new() -> (r: ScheduleId) {
        ScheduleId(fresh_uuid())
    }

    /// Parses the text of a UUID; fails with `InvalidId("ScheduleId")` otherwise.
    pub fn parse(s: &str) -> (r: Result<ScheduleId, DomainError>)
        ensures
            match uuid_parse_of(s@) {
                Some(v) => r == Ok::<ScheduleId, DomainError>(ScheduleId(v)),
                None => r matches Err(DomainError::InvalidId(name)) && name@ == "ScheduleId"@,
            },
    {
        match parse_uuid(s) {
            Some(v) => Ok(ScheduleId(v)),
            None => Err(DomainError::InvalidId(String::from_str("ScheduleId"))),
        }
    }

    /// The hyphenated lowercase text of the identifier.
    pub fn to_string(&self) -> (r: String)
        ensures
            r@ == uuid_text_of(self.0),
            r@.len() == 36,
    {
        proof {
            lemma_hex_digits_len(self.0 as nat, 32);
            reveal_strlit("-");
        }
        uuid_text(self.0)
    }
}

/// Identifies an escalation policy.
#[derive(Debug, Clone, Copy, PartialEq, Eq, Hash, Structural)]
pub struct PolicyId(pub u128);

impl PolicyId {
    /// A fresh random identifier.
    pub fn new() -> (r: PolicyId) {
        PolicyId(fresh_uuid())
    }

    /// Parses the text of a UUID; fails with `InvalidId("PolicyId")` otherwise.
    pub fn parse(s: &str) -> (r: Result<PolicyId, DomainError>)
        ensures
            match uuid_parse_of(s@) {
                Some(v) => r == Ok::<PolicyId, DomainError>(PolicyId(v)),
                None => r matches Err(DomainError::InvalidId(name)) && name@ == "PolicyId"@,
            },
    {
        match parse_uuid(s) {
            Some(v) => Ok(PolicyId(v)),
            None => Err(DomainError::InvalidId(String::from_str("PolicyId"))),
        }
    }

    /// The hyphenated lowercase text of the identifier.
    pub fn to_string(&self) -> (r: String)
        ensures
            r@ == uuid_text_of(self.0),
            r@.len() == 36,
    {
        proof {
            lemma_hex_digits_len(self.0 as nat, 32);
            reveal_strlit("-");
        }
        uuid_text(self.0)
    }
}

/// Identifies a team.
#[derive(Debug, Clone, Copy, PartialEq, Eq, Hash, Structural)]
pub struct TeamId(pub u128);

impl TeamId {
    /// A fresh random identifier.
    pub fn new() -> (r: TeamId) {
        TeamId(fresh_uuid())
    }

    /// Parses the text of a UUID; fails with `InvalidId("TeamId")` otherwise.
    pub fn parse(s: &str) -> (r: Result<TeamId, DomainError>)
        ensures
            match uuid_parse_of(s@) {
                Some(v) => r == Ok::<TeamId, DomainError>(TeamId(v)),
                None => r matches Err(DomainError::InvalidId(name)) && name@ == "TeamId"@,
            },
    {
        match parse_uuid(s) {
            Some(v) => Ok(TeamId(v)),
            None => Err(DomainError::InvalidId(String::from_str("TeamId"))),
        }
    }

    /// The hyphenated lowercase text of the identifier.
    pub fn to_string(&self) -> (r: String)
        ensures
            r@ == uuid_text_of(self.0),
            r@.len() == 36,
    {
        proof {
            lemma_hex_digits_len(self.0 as nat, 32);
            reveal_strlit("-");
        }
        uuid_text(self.0)
    }
}

/// Identifies an alert group.
#[derive(Debug, Clone, Copy, PartialEq, Eq, Hash, Structural)]
pub struct GroupId(pub u128);

impl GroupId {
    /// A fresh random identifier.
    pub fn new() -> (r: GroupId) {
        GroupId(fresh_uuid())
    }

    /// Parses the text of a UUID; fails with `InvalidId("GroupId")` otherwise.
    pub fn parse(s: &str) -> (r: Result<GroupId, DomainError>)
        ensures
            match uuid_parse_of(s@) {
                Some(v) => r == Ok::<GroupId, DomainError>(GroupId(v)),
                None => r matches Err(DomainError::InvalidId(name)) && name@ == "GroupId"@,
            },
    {
        match parse_uuid(s) {
            Some(v) => Ok(GroupId(v)),
            None => Err(DomainError::InvalidId(String::from_str("GroupId"))),
        }
    }

    /// The hyphenated lowercase text of the identifier.
    pub fn to_string(&self) -> (r: String)
        ensures
            r@ == uuid_text_of(self.0),
            r@.len() == 36,
    {
        proof {
            lemma_hex_digits_len(self.0 as nat, 32);
            reveal_strlit("-");
        }
        uuid_text(self.0)
    }
}

/// Identifies a schedule override.
#[derive(Debug, Clone, Copy, PartialEq, Eq, Hash, Structural)]
pub struct OverrideId(pub u128);

impl OverrideId {
    /// A fresh random identifier.
    pub fn new() -> (r: OverrideId) {
        OverrideId(fresh_uuid())
    }

    /// Parses the text of a UUID; fails with `InvalidId("OverrideId")` otherwise.
    pub fn parse(s: &str) -> (r: Result<OverrideId, DomainError>)
        ensures
            match uuid_parse_of(s@) {
                Some(v) => r == Ok::<OverrideId, DomainError>(OverrideId(v)),
                None => r matches Err(DomainError::InvalidId(name)) && name@ == "OverrideId"@,
            },
    {
        match parse_uuid(s) {
            Some(v) => Ok(OverrideId(v)),
            None => Err(DomainError::InvalidId(String::from_str("OverrideId"))),
        }
    }

    /// The hyphenated lowercase text of the identifier.
    pub fn to_string(&self) -> (r: String)
        ensures
            r@ == uuid_text_of(self.0),
            r@.len() == 36,
    {
        proof {
            lemma_hex_digits_len(self.0 as nat, 32);
            reveal_strlit("-");
        }
        uuid_text(self.0)
    }
}

} // verus!
