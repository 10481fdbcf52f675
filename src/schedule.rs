use vstd::prelude::*;

use vstd::arithmetic::div_mod::{
    lemma_fundamental_div_mod, lemma_fundamental_div_mod_converse, lemma_mod_multiples_vanish,
    lemma_small_mod,
};

use crate::error::DomainError;
use crate::events::{DomainEvent, OnCallChanged};
use crate::ids::{OverrideId, ScheduleId, UserId};

verus! {

#[verifier::external_type_specification]
#[verifier::external_body]
pub struct ExWeekday(chrono::Weekday);

/// The UTC instant, in seconds since the Unix epoch, of local midnight on the given date in the
/// IANA time zone named `tz`; `None` when the zone is unknown or that wall-clock time does not
/// name exactly one instant there.
pub uninterp spec fn local_midnight_of(tz: Seq<char>, year: i32, month: u32, day: u32) -> Option<
    i64,
>;

/// Relies on `chrono_tz::Tz::from_str` (the zone of that name in chrono-tz's compiled-in
/// database), `chrono::NaiveDate::from_ymd_opt`, `NaiveDate::and_hms_opt`,
/// `NaiveDateTime::and_local_timezone`, `LocalResult::single` and `DateTime::timestamp`: the
/// instant of local midnight on the date in the zone. The result depends on the arguments alone.
#[verifier::external_body]
fn local_midnight(tz: &str, year: i32, month: u32, day: u32) -> (r: Option<i64>)
    ensures
        r == local_midnight_of(tz@, year, month, day),
{
    let zone: chrono_tz::Tz = tz.parse().ok()?;
    let date = chrono::NaiveDate::from_ymd_opt(year, month, day)?;
    let midnight = date.and_hms_opt(0, 0, 0)?;
    let instant = midnight.and_local_timezone(zone).single()?;
    Some(instant.timestamp())
}

/// Rotations count from local midnight of Monday 2020-01-06 in the schedule's time zone.
pub const ROTATION_EPOCH_YEAR: i32 = 2020;

pub const ROTATION_EPOCH_MONTH: u32 = 1;

pub const ROTATION_EPOCH_DAY: u32 = 6;

/// The rotation epoch of the time zone named `tz`, if it has one.
pub open spec fn rotation_epoch_of(tz: Seq<char>) -> Option<i64> {
    local_midnight_of(tz, ROTATION_EPOCH_YEAR, ROTATION_EPOCH_MONTH, ROTATION_EPOCH_DAY)
}

/// How long each participant stays on call.
#[derive(Debug, Clone, Copy, PartialEq, Eq, Structural)]
pub enum Rotation {
    Daily,
    Weekly,
    /// A period of the given number of seconds.
    Custom(i64),
}

/// The length of a rotation period in seconds.
pub open spec fn rotation_secs(r: Rotation) -> int {
    match r {
        Rotation::Daily => 86_400,
        Rotation::Weekly => 604_800,
        Rotation::Custom(s) => s as int,
    }
}

impl Rotation {
    /// The length of one period, in seconds.
    pub fn duration(&self) -> (r: i64)
        ensures
            r == rotation_secs(*self),
    {
        match self {
            Rotation::Daily => 86_400,
            Rotation::Weekly => 604_800,
            Rotation::Custom(secs) => *secs,
        }
    }
}

/// When shifts hand over; stored for future anchoring, not consulted by the rotation.
#[derive(Debug, Clone, Copy, PartialEq, Eq)]
pub struct HandoffTime {
    pub day: chrono::Weekday,
    pub hour: u32,
    pub minute: u32,
}

/// A temporary replacement as plain values: `user_id` is on call during `[start, end)`.
pub struct ScheduleOverrideView {
    pub id: OverrideId,
    pub user_id: UserId,
    pub start: i64,
    pub end: i64,
}

/// Whether the half-open interval `[start, end)` of an override holds `at`.
pub open spec fn override_active(o: ScheduleOverrideView, at: int) -> bool {
    o.start <= at < o.end
}

/// A temporary replacement of the rotation by one user over a half-open interval of time.
#[derive(Debug, Clone, Copy, PartialEq, Eq, Structural)]
pub struct ScheduleOverride {
    id: OverrideId,
    user_id: UserId,
    start: i64,
    end: i64,
}

impl View for ScheduleOverride {
    type V = ScheduleOverrideView;

    closed spec fn view(&self) -> ScheduleOverrideView {
        ScheduleOverrideView { id: self.id, user_id: self.user_id, start: self.start, end: self.end }
    }
}

impl ScheduleOverride {
    /// A fresh override of `user_id` over `[start, end)` (seconds since the Unix epoch).
    pub fn new(user_id: UserId, start: i64, end: i64) -> (r: ScheduleOverride)
        ensures
            r@.user_id == user_id,
            r@.start == start,
            r@.end == end,
    {
        ScheduleOverride { id: OverrideId::new(), user_id, start, end }
    }

    /// Rebuilds a stored override.
    pub fn restore(id: OverrideId, user_id: UserId, start: i64, end: i64) -> (r: ScheduleOverride)
        ensures
            r@ == (ScheduleOverrideView { id, user_id, start, end }),
    {
        ScheduleOverride { id, user_id, start, end }
    }

    pub fn id(&self) -> (r: &OverrideId)
        ensures
            *r == self@.id,
    {
        &self.id
    }

    pub fn user_id(&self) -> (r: &UserId)
        ensures
            *r == self@.user_id,
    {
        &self.user_id
    }

    /// `start <= at < end`.
    pub fn is_active_at(&self, at: i64) -> (r: bool)
        ensures
            r == override_active(self@, at as int),
    {
        at >= self.start && at < self.end
    }

    pub fn start(&self) -> (r: i64)
        ensures
            r == self@.start,
    {
        self.start
    }

    pub fn end(&self) -> (r: i64)
        ensures
            r == self@.end,
    {
        self.end
    }
}

/// A schedule as plain values. `timezone` is the IANA name of its time zone and `epoch` the UTC
/// instant (seconds since the Unix epoch) of the rotation epoch in that zone.
pub struct ScheduleView {
    pub id: ScheduleId,
    pub name: Seq<char>,
    pub timezone: Seq<char>,
    pub rotation: Rotation,
    pub participants: Seq<UserId>,
    pub handoff: HandoffTime,
    pub overrides: Seq<ScheduleOverrideView>,
    pub epoch: i64,
}

/// What every schedule satisfies: at least one participant, a positive rotation period,
/// overrides that end after they start, and the rotation epoch of its time zone.
pub open spec fn schedule_well_formed(s: ScheduleView) -> bool {
    &&& s.participants.len() > 0
    &&& rotation_secs(s.rotation) > 0
    &&& forall|i: int| 0 <= i < s.overrides.len() ==> #[trigger] s.overrides[i].start < s.overrides[i].end
    &&& rotation_epoch_of(s.timezone) == Some(s.epoch)
}

/// The user of the most recently added override active at `at`, if any.
pub open spec fn override_user_at(overrides: Seq<ScheduleOverrideView>, at: int) -> Option<UserId>
    decreases overrides.len(),
{
    if overrides.len() == 0 {
        None
    } else if override_active(overrides.last(), at) {
        Some(overrides.last().user_id)
    } else {
        override_user_at(overrides.drop_last(), at)
    }
}

/// The index of the rotation participant for `elapsed` seconds since the epoch: the whole
/// periods elapsed, rounded down, reduced modulo `n` into `[0, n)` (both for a positive period).
pub open spec fn rotation_index(elapsed: int, period: int, n: int) -> int {
    (elapsed / period) % n
}

/// Who the rotation alone puts on call at `at`.
pub open spec fn rotation_user_at(s: ScheduleView, at: int) -> UserId {
    s.participants[rotation_index(
        at - s.epoch,
        rotation_secs(s.rotation),
        s.participants.len() as int,
    )]
}

/// Who is on call at `at`: the latest added active override, else the rotation.
pub open spec fn on_call_at(s: ScheduleView, at: int) -> UserId {
    match override_user_at(s.overrides, at) {
        Some(u) => u,
        None => rotation_user_at(s, at),
    }
}

/// An on-call schedule: a rotation over ordered participants plus a stack of overrides.
#[derive(Debug)]
pub struct Schedule {
    id: ScheduleId,
    name: String,
    timezone: String,
    rotation: Rotation,
    participants: Vec<UserId>,
    handoff: HandoffTime,
    overrides: Vec<ScheduleOverride>,
    epoch: i64,
}

impl View for Schedule {
    type V = ScheduleView;

    closed spec fn view(&self) -> ScheduleView {
        ScheduleView {
            id: self.id,
            name: self.name@,
            timezone: self.timezone@,
            rotation: self.rotation,
            participants: self.participants@,
            handoff: self.handoff,
            overrides: self.overrides@.map_values(|o: ScheduleOverride| o@),
            epoch: self.epoch,
        }
    }
}

proof fn lemma_neg_mod(m: int, n: int)
    requires
        m >= 0,
        n > 0,
    ensures
        (-m) % n == (if m % n == 0 {
            0
        } else {
            n - m % n
        }),
{
    lemma_fundamental_div_mod(m, n);
    let k = m / n;
    let r = m % n;
    if r == 0 {
        assert(-m == (-k) * n + 0) by (nonlinear_arith)
            requires
                m == n * k + r,
                r == 0,
        ;
        lemma_fundamental_div_mod_converse(-m, n, -k, 0);
    } else {
        assert(-m == (-k - 1) * n + (n - r)) by (nonlinear_arith)
            requires
                m == n * k + r,
        ;
        lemma_fundamental_div_mod_converse(-m, n, -k - 1, n - r);
    }
}

impl Schedule {
    #[verifier::type_invariant]
    spec fn well_formed(&self) -> bool {
        schedule_well_formed(self@)
    }

    /// A schedule with no overrides in the IANA time zone named `timezone`. Fails with
    /// `ScheduleRequiresParticipant` exactly when `participants` is empty, else with
    /// `InvalidRotationPeriod` when the period is not positive, else with `InvalidTimezone`
    /// exactly when the zone has no rotation epoch.
    pub fn new(
        name: String,
        timezone: String,
        rotation: Rotation,
        participants: Vec<UserId>,
        handoff: HandoffTime,
    ) -> (r: Result<Schedule, DomainError>)
        ensures
            participants@.len() == 0 <==> r == Err::<Schedule, DomainError>(
                DomainError::ScheduleRequiresParticipant,
            ),
            participants@.len() > 0 && rotation_secs(rotation) <= 0 ==> r == Err::<
                Schedule,
                DomainError,
            >(DomainError::InvalidRotationPeriod),
            participants@.len() > 0 && rotation_secs(rotation) > 0 ==> (r is Ok <==> rotation_epoch_of(
                timezone@,
            ) is Some),
            participants@.len() > 0 && rotation_secs(rotation) > 0 && rotation_epoch_of(timezone@) is None
                ==> r == Err::<Schedule, DomainError>(DomainError::InvalidTimezone),
            r matches Ok(s) ==> s@.name == name@ && s@.timezone == timezone@ && s@.rotation
                == rotation && s@.participants == participants@ && s@.handoff == handoff
                && s@.overrides.len() == 0 && Some(s@.epoch) == rotation_epoch_of(timezone@)
                && schedule_well_formed(s@),
    {
        if participants.len() == 0 {
            return Err(DomainError::ScheduleRequiresParticipant);
        }
        if rotation.duration() <= 0 {
            return Err(DomainError::InvalidRotationPeriod);
        }
        let epoch = match local_midnight(
            timezone.as_str(),
            ROTATION_EPOCH_YEAR,
            ROTATION_EPOCH_MONTH,
            ROTATION_EPOCH_DAY,
        ) {
            Some(e) => e,
            None => return Err(DomainError::InvalidTimezone),
        };
        let overrides: Vec<ScheduleOverride> = Vec::new();
        assert(overrides@.map_values(|o: ScheduleOverride| o@) =~= Seq::empty());
        let s = Schedule {
            id: ScheduleId::new(),
            name,
            timezone,
            rotation,
            participants,
            handoff,
            overrides,
            epoch,
        };
        Ok(s)
    }

    /// Rebuilds a stored schedule, recomputing its rotation epoch. Fails as `new` does, and
    /// with `InvalidOverridePeriod` (checked before the time zone) when a stored override does
    /// not end after it starts.
    pub fn restore(
        id: ScheduleId,
        name: String,
        timezone: String,
        rotation: Rotation,
        participants: Vec<UserId>,
        handoff: HandoffTime,
        overrides: Vec<ScheduleOverride>,
    ) -> (r: Result<Schedule, DomainError>)
        ensures
            participants@.len() == 0 <==> r == Err::<Schedule, DomainError>(
                DomainError::ScheduleRequiresParticipant,
            ),
            participants@.len() > 0 && rotation_secs(rotation) <= 0 ==> r == Err::<
                Schedule,
                DomainError,
            >(DomainError::InvalidRotationPeriod),
            participants@.len() > 0 && rotation_secs(rotation) > 0 && (exists|i: int|
                0 <= i < overrides@.len() && (#[trigger] overrides@[i])@.end
                    <= overrides@[i]@.start) ==> r == Err::<Schedule, DomainError>(
                DomainError::InvalidOverridePeriod,
            ),
            participants@.len() > 0 && rotation_secs(rotation) > 0 && (forall|i: int|
                0 <= i < overrides@.len() ==> (#[trigger] overrides@[i])@.start
                    < overrides@[i]@.end) ==> (r is Ok <==> rotation_epoch_of(timezone@) is Some)
                && (rotation_epoch_of(timezone@) is None ==> r == Err::<Schedule, DomainError>(
                DomainError::InvalidTimezone,
            )),
            r matches Ok(s) ==> s@.id == id && s@.name == name@ && s@.timezone == timezone@
                && s@.rotation == rotation && s@.participants == participants@ && s@.handoff
                == handoff && s@.overrides == overrides@.map_values(|o: ScheduleOverride| o@)
                && Some(s@.epoch) == rotation_epoch_of(timezone@) && schedule_well_formed(s@),
    {
        if participants.len() == 0 {
            return Err(DomainError::ScheduleRequiresParticipant);
        }
        if rotation.duration() <= 0 {
            return Err(DomainError::InvalidRotationPeriod);
        }
        let mut i: usize = 0;
        while i < overrides.len()
            invariant
                0 <= i <= overrides@.len(),
                participants@.len() > 0,
                rotation_secs(rotation) > 0,
                forall|k: int| 0 <= k < i ==> (#[trigger] overrides@[k])@.start < overrides@[k]@.end,
            decreases overrides@.len() - i,
        {
            if overrides[i].end <= overrides[i].start {
                return Err(DomainError::InvalidOverridePeriod);
            }
            i = i + 1;
        }
        let epoch = match local_midnight(
            timezone.as_str(),
            ROTATION_EPOCH_YEAR,
            ROTATION_EPOCH_MONTH,
            ROTATION_EPOCH_DAY,
        ) {
            Some(e) => e,
            None => return Err(DomainError::InvalidTimezone),
        };
        proof {
            let vs = overrides@.map_values(|o: ScheduleOverride| o@);
            assert forall|k: int| 0 <= k < vs.len() implies #[trigger] vs[k].start < vs[k].end by {
                assert(vs[k] == overrides@[k]@);
            }
        }
        let s = Schedule { id, name, timezone, rotation, participants, handoff, overrides, epoch };
        Ok(s)
    }

    /// The overrides, oldest first.
    pub fn overrides(&self) -> (r: &[ScheduleOverride])
        ensures
            r@.map_values(|o: ScheduleOverride| o@) == self@.overrides,
    {
        self.overrides.as_slice()
    }

    /// The user on call at `at` (seconds since the Unix epoch): overrides are scanned from the
    /// most recently added, and the first active one wins; otherwise the rotation decides.
    pub fn who_is_on_call(&self, at: i64) -> (r: UserId)
        ensures
            schedule_well_formed(self@),
            r == on_call_at(self@, at as int),
    {
        proof {
            use_type_invariant(self);
        }
        let mut i: usize = self.overrides.len();
        assert(self@.overrides.subrange(0, i as int) =~= self@.overrides);
        while i > 0
            invariant
                0 <= i <= self.overrides@.len(),
                schedule_well_formed(self@),
                override_user_at(self@.overrides, at as int) == override_user_at(
                    self@.overrides.subrange(0, i as int),
                    at as int,
                ),
            decreases i,
        {
            let o = &self.overrides[i - 1];
            proof {
                let sub = self@.overrides.subrange(0, i as int);
                assert(sub.last() == o@);
                assert(sub.drop_last() =~= self@.overrides.subrange(0, i - 1));
            }
            if o.is_active_at(at) {
                return o.user_id;
            }
            i = i - 1;
        }
        let index = self.rotation_position(at);
        self.participants[index]
    }

    /// The participant who follows, in rotation order, the one the rotation puts on call at
    /// `at`; overrides are not consulted.
    pub fn next_on_call(&self, at: i64) -> (r: UserId)
        ensures
            schedule_well_formed(self@),
            r == self@.participants[(rotation_index(
                at - self@.epoch,
                rotation_secs(self@.rotation),
                self@.participants.len() as int,
            ) + 1) % (self@.participants.len() as int)],
    {
        proof {
            use_type_invariant(self);
        }
        let index = self.rotation_position(at);
        let n = self.participants.len();
        let next = if index == n - 1 {
            0
        } else {
            index + 1
        };
        proof {
            if index == n - 1 {
                vstd::arithmetic::div_mod::lemma_mod_self_0(n as int);
            } else {
                lemma_small_mod((index + 1) as nat, n as nat);
            }
        }
        self.participants[next]
    }

    /// The rotation index at `at`.
    fn rotation_position(&self, at: i64) -> (r: usize)
        ensures
            r == rotation_index(
                at - self@.epoch,
                rotation_secs(self@.rotation),
                self@.participants.len() as int,
            ),
            r < self@.participants.len(),
    {
        proof {
            use_type_invariant(self);
        }
        let elapsed: i128 = at as i128 - self.epoch as i128;
        let period: u128 = self.rotation.duration() as u128;
        let n: u128 = self.participants.len() as u128;
        let index: u128 = if elapsed >= 0 {
            let q = (elapsed as u128) / period;
            q % n
        } else {
            let m: u128 = (-elapsed) as u128;
            // Rounding down a negative count of periods: -ceil(m / period).
            let c: u128 = (m + period - 1) / period;
            let rem = c % n;
            proof {
                let (e, p, mi, ci) = (elapsed as int, period as int, m as int, c as int);
                lemma_fundamental_div_mod(mi + p - 1, p);
                let rr = (mi + p - 1) % p;
                assert(e == (-ci) * p + (p - 1 - rr)) by (nonlinear_arith)
                    requires
                        mi + p - 1 == p * ci + rr,
                        e == -mi,
                ;
                lemma_fundamental_div_mod_converse(e, p, -ci, p - 1 - rr);
                lemma_neg_mod(ci, n as int);
            }
            if rem == 0 {
                0
            } else {
                n - rem
            }
        };
        index as usize
    }

    /// Adds an override and reports its user as the new on-call user. Fails with
    /// `InvalidOverridePeriod`, leaving the schedule unchanged, when `end <= start`.
    pub fn add_override(&mut self, ovr: ScheduleOverride, now: i64) -> (r: Result<
        Vec<DomainEvent>,
        DomainError,
    >)
        ensures
            schedule_well_formed(final(self)@),
            ovr@.end <= ovr@.start ==> r == Err::<Vec<DomainEvent>, DomainError>(
                DomainError::InvalidOverridePeriod,
            ) && final(self)@ == old(self)@,
            ovr@.end > ovr@.start ==> (r matches Ok(ev) && ev@ == seq![
                DomainEvent::OnCallChanged(
                    OnCallChanged {
                        schedule_id: old(self)@.id,
                        new_user: ovr@.user_id,
                        previous_user: None,
                        occurred_at: now,
                    },
                ),
            ] && final(self)@ == (ScheduleView {
                overrides: old(self)@.overrides.push(ovr@),
                ..old(self)@
            })),
    {
        proof {
            use_type_invariant(&*self);
        }
        if ovr.end <= ovr.start {
            return Err(DomainError::InvalidOverridePeriod);
        }
        let new_user = ovr.user_id;
        let ghost before = self@.overrides;
        let mut overrides: Vec<ScheduleOverride> = Vec::new();
        assert(overrides@.map_values(|o: ScheduleOverride| o@) =~= Seq::empty());
        std::mem::swap(&mut self.overrides, &mut overrides);
        overrides.push(ovr);
        proof {
            let vs = overrides@.map_values(|o: ScheduleOverride| o@);
            assert(vs =~= before.push(ovr@));
            assert forall|k: int| 0 <= k < vs.len() implies #[trigger] vs[k].start < vs[k].end by {
                if k < before.len() {
                    assert(vs[k] == before[k]);
                }
            }
        }
        self.overrides = overrides;
        proof {
            use_type_invariant(&*self);
        }
        Ok(
            vec![
                DomainEvent::OnCallChanged(
                    OnCallChanged {
                        schedule_id: self.id,
                        new_user,
                        previous_user: None,
                        occurred_at: now,
                    },
                ),
            ],
        )
    }

    /// Removes the first override with id `override_id` and reports who is on call at `now`
    /// afterwards; a no-op with no events when there is none.
    pub fn remove_override(&mut self, override_id: &OverrideId, now: i64) -> (r: Result<
        Vec<DomainEvent>,
        DomainError,
    >)
        ensures
            schedule_well_formed(final(self)@),
            r is Ok,
            (forall|i: int|
                0 <= i < old(self)@.overrides.len() ==> (#[trigger] old(self)@.overrides[i]).id
                    != *override_id) ==> (r matches Ok(ev) && ev@.len() == 0 && final(self)@
                == old(self)@),
            forall|i: int|
                0 <= i < old(self)@.overrides.len() && (#[trigger] old(self)@.overrides[i]).id
                    == *override_id && (forall|j: int|
                    0 <= j < i ==> (#[trigger] old(self)@.overrides[j]).id != *override_id)
                    ==> final(self)@ == (ScheduleView {
                    overrides: old(self)@.overrides.remove(i),
                    ..old(self)@
                }) && (r matches Ok(ev) && ev@ == seq![
                    DomainEvent::OnCallChanged(
                        OnCallChanged {
                            schedule_id: old(self)@.id,
                            new_user: on_call_at(final(self)@, now as int),
                            previous_user: None,
                            occurred_at: now,
                        },
                    ),
                ]),
    {
        proof {
            use_type_invariant(&*self);
        }
        let mut i: usize = 0;
        while i < self.overrides.len()
            invariant
                0 <= i <= self.overrides@.len(),
                self@ == old(self)@,
                schedule_well_formed(old(self)@),
                forall|j: int| 0 <= j < i ==> (#[trigger] self@.overrides[j]).id != *override_id,
            decreases self.overrides@.len() - i,
        {
            if self.overrides[i].id == *override_id {
                assert(old(self)@.overrides[i as int].id == *override_id);
                let ghost before = self@.overrides;
                let mut overrides: Vec<ScheduleOverride> = Vec::new();
                assert(overrides@.map_values(|o: ScheduleOverride| o@) =~= Seq::empty());
                std::mem::swap(&mut self.overrides, &mut overrides);
                overrides.remove(i);
                proof {
                    let vs = overrides@.map_values(|o: ScheduleOverride| o@);
                    assert(vs =~= before.remove(i as int));
                    assert forall|k: int| 0 <= k < vs.len() implies #[trigger] vs[k].start
                        < vs[k].end by {
                        if k < i {
                            assert(vs[k] == before[k]);
                            assert(before[k].start < before[k].end);
                        } else {
                            assert(vs[k] == before[k + 1]);
                            assert(before[k + 1].start < before[k + 1].end);
                        }
                    }
                }
                self.overrides = overrides;
                let current = self.who_is_on_call(now);
                assert forall|k: int|
                    0 <= k < old(self)@.overrides.len() && (#[trigger] old(self)@.overrides[k]).id
                        == *override_id && (forall|j: int|
                        0 <= j < k ==> (#[trigger] old(self)@.overrides[j]).id != *override_id)
                        implies k == i by {
                    if k > i {
                        assert(old(self)@.overrides[i as int].id == *override_id);
                    }
                }
                return Ok(
                    vec![
                        DomainEvent::OnCallChanged(
                            OnCallChanged {
                                schedule_id: self.id,
                                new_user: current,
                                previous_user: None,
                                occurred_at: now,
                            },
                        ),
                    ],
                );
            }
            i = i + 1;
        }
        Ok(Vec::new())
    }

    pub fn id(&self) -> (r: &ScheduleId)
        ensures
            *r == self@.id,
    {
        &self.id
    }

    pub fn name(&self) -> (r: &str)
        ensures
            r@ == self@.name,
    {
        self.name.as_str()
    }

    pub fn participants(&self) -> (r: &[UserId])
        ensures
            r@ == self@.participants,
    {
        self.participants.as_slice()
    }

    pub fn handoff(&self) -> (r: &HandoffTime)
        ensures
            *r == self@.handoff,
    {
        &self.handoff
    }

    pub fn rotation(&self) -> (r: Rotation)
        ensures
            r == self@.rotation,
    {
        self.rotation
    }

    /// The UTC instant, in seconds since the Unix epoch, from which rotation periods count.
    pub fn rotation_epoch(&self) -> (r: i64)
        ensures
            r == self@.epoch,
            Some(r) == rotation_epoch_of(self@.timezone),
    {
        proof {
            use_type_invariant(self);
        }
        self.epoch
    }

    /// The IANA name of the schedule's time zone.
    pub fn timezone(&self) -> (r: &str)
        ensures
            r@ == self@.timezone,
    {
        self.timezone.as_str()
    }
}

proof fn lemma_override_user_is_active(overrides: Seq<ScheduleOverrideView>, at: int)
    ensures
        override_user_at(overrides, at) matches Some(u) ==> exists|i: int|
            0 <= i < overrides.len() && override_active(#[trigger] overrides[i], at)
                && overrides[i].user_id == u,
    decreases overrides.len(),
{
    if overrides.len() > 0 && !override_active(overrides.last(), at) {
        let rest = overrides.drop_last();
        lemma_override_user_is_active(rest, at);
        if override_user_at(rest, at) is Some {
            let i = choose|i: int|
                0 <= i < rest.len() && override_active(#[trigger] rest[i], at) && rest[i].user_id
                    == override_user_at(rest, at)->0;
            assert(overrides[i] == rest[i]);
        }
    }
}

/// Whoever is on call at any instant is a participant of the schedule or the user of an
/// override active at that instant.
pub proof fn lemma_on_call_is_participant_or_active_override(s: ScheduleView, t: int)
    requires
        schedule_well_formed(s),
    ensures
        s.participants.contains(on_call_at(s, t)) || exists|i: int|
            0 <= i < s.overrides.len() && override_active(#[trigger] s.overrides[i], t)
                && s.overrides[i].user_id == on_call_at(s, t),
{
    lemma_override_user_is_active(s.overrides, t);
    if override_user_at(s.overrides, t) is None {
        let n = s.participants.len() as int;
        let idx = rotation_index(t - s.epoch, rotation_secs(s.rotation), n);
        assert(0 <= idx < n);
        assert(s.participants[idx] == on_call_at(s, t));
    }
}

/// With `n` participants and period `d`, the rotation repeats every `n * d` seconds at every
/// instant: the rotation names the same user at `t` and at `t + n * d`, and so does the schedule
/// when no override is active at either instant.
pub proof fn lemma_rotation_repeats(s: ScheduleView, t: int)
    requires
        schedule_well_formed(s),
    ensures
        rotation_user_at(s, t + s.participants.len() * rotation_secs(s.rotation)) == rotation_user_at(
            s,
            t,
        ),
        override_user_at(s.overrides, t) is None && override_user_at(
            s.overrides,
            t + s.participants.len() * rotation_secs(s.rotation),
        ) is None ==> on_call_at(s, t + s.participants.len() * rotation_secs(s.rotation))
            == on_call_at(s, t),
{
    let n = s.participants.len() as int;
    let d = rotation_secs(s.rotation);
    let e = t - s.epoch;
    let later = t + n * d;
    assert(later - s.epoch == e + n * d);
    lemma_fundamental_div_mod(e, d);
    let q = e / d;
    let r = e % d;
    assert(e + n * d == (q + n) * d + r) by (nonlinear_arith)
        requires
            e == d * q + r,
    ;
    lemma_fundamental_div_mod_converse(e + n * d, d, q + n, r);
    lemma_mod_multiples_vanish(1, q, n);
    assert(n * 1 + q == q + n);
    assert(rotation_index(e + n * d, d, n) == rotation_index(e, d, n));
}

} // verus!
