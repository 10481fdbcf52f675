use vstd::prelude::*;

verus! {

/// The counters kept for one fingerprint.
pub struct NoiseScoreView {
    pub fingerprint: Seq<char>,
    pub total_fires: nat,
    pub dismissed_count: nat,
    pub acted_on_count: nat,
    pub avg_time_to_ack_secs: int,
}

/// `dismissed / total > 0.80`, with no fires counting as a score of zero.
pub open spec fn is_noise_spec(v: NoiseScoreView) -> bool {
    v.total_fires > 0 && 5 * v.dismissed_count > 4 * v.total_fires
}

/// `dismissed / total > 0.95`, with no fires counting as a score of zero.
pub open spec fn suggest_suppression_spec(v: NoiseScoreView) -> bool {
    v.total_fires > 0 && 20 * v.dismissed_count > 19 * v.total_fires
}

/// No more responses than fires.
pub open spec fn responses_within_fires(v: NoiseScoreView) -> bool {
    v.dismissed_count + v.acted_on_count <= v.total_fires
}

/// The running mean after one more acknowledgement of `d` seconds, where `n` counts the
/// responses including this one (`n = 0` sets the mean directly). Division truncates toward zero.
pub open spec fn next_average(avg: int, n: int, d: int) -> int {
    if n == 0 {
        d
    } else {
        let num = avg * (n - 1) + d;
        if num >= 0 {
            num / n
        } else {
            -((-num) / n)
        }
    }
}

/// Per-fingerprint counters of fires and of how operators responded.
#[derive(Debug)]
pub struct NoiseScore {
    fingerprint: String,
    total_fires: u64,
    dismissed_count: u64,
    acted_on_count: u64,
    avg_time_to_ack_secs: i64,
}

impl View for NoiseScore {
    type V = NoiseScoreView;

    closed spec fn view(&self) -> NoiseScoreView {
        NoiseScoreView {
            fingerprint: self.fingerprint@,
            total_fires: self.total_fires as nat,
            dismissed_count: self.dismissed_count as nat,
            acted_on_count: self.acted_on_count as nat,
            avg_time_to_ack_secs: self.avg_time_to_ack_secs as int,
        }
    }
}

impl Clone for NoiseScore {
    fn clone(&self) -> NoiseScore {
        proof {
            use_type_invariant(self);
        }
        NoiseScore {
            fingerprint: self.fingerprint.clone(),
            total_fires: self.total_fires,
            dismissed_count: self.dismissed_count,
            acted_on_count: self.acted_on_count,
            avg_time_to_ack_secs: self.avg_time_to_ack_secs,
        }
    }
}

impl NoiseScore {
    #[verifier::type_invariant]
    spec fn responses_counted_once(&self) -> bool {
        self.dismissed_count + self.acted_on_count <= self.total_fires
    }

    /// All counters at zero.
    pub fn new(fingerprint: String) -> (r: NoiseScore)
        ensures
            r@ == (NoiseScoreView {
                fingerprint: fingerprint@,
                total_fires: 0,
                dismissed_count: 0,
                acted_on_count: 0,
                avg_time_to_ack_secs: 0,
            }),
            responses_within_fires(r@),
    {
        NoiseScore {
            fingerprint,
            total_fires: 0,
            dismissed_count: 0,
            acted_on_count: 0,
            avg_time_to_ack_secs: 0,
        }
    }

    /// Counters as stored; `None` when they break `dismissed + acted_on <= total`.
    pub fn from_counts(
        fingerprint: String,
        total_fires: u64,
        dismissed_count: u64,
        acted_on_count: u64,
        avg_time_to_ack_secs: i64,
    ) -> (r: Option<NoiseScore>)
        ensures
            match r {
                Some(s) => s@ == (NoiseScoreView {
                    fingerprint: fingerprint@,
                    total_fires: total_fires as nat,
                    dismissed_count: dismissed_count as nat,
                    acted_on_count: acted_on_count as nat,
                    avg_time_to_ack_secs: avg_time_to_ack_secs as int,
                }),
                None => dismissed_count + acted_on_count > total_fires,
            },
            r matches Some(s) ==> responses_within_fires(s@),
    {
        if (dismissed_count as u128) + (acted_on_count as u128) > total_fires as u128 {
            None
        } else {
            Some(
                NoiseScore {
                    fingerprint,
                    total_fires,
                    dismissed_count,
                    acted_on_count,
                    avg_time_to_ack_secs,
                },
            )
        }
    }

    pub fn record_fire(&mut self)
        requires
            old(self)@.total_fires < u64::MAX,
        ensures
            responses_within_fires(final(self)@),
            final(self)@ == (NoiseScoreView {
                total_fires: old(self)@.total_fires + 1,
                ..old(self)@
            }),
    {
        proof {
            use_type_invariant(&*self);
        }
        self.total_fires = self.total_fires + 1;
    }

    /// Counts a dismissal; every response answers a fire counted before.
    pub fn record_dismiss(&mut self)
        requires
            old(self)@.dismissed_count + old(self)@.acted_on_count < old(self)@.total_fires,
        ensures
            responses_within_fires(final(self)@),
            final(self)@ == (NoiseScoreView {
                dismissed_count: old(self)@.dismissed_count + 1,
                ..old(self)@
            }),
    {
        proof {
            use_type_invariant(&*self);
        }
        self.dismissed_count = self.dismissed_count + 1;
    }

    /// Counts a response that was acted on; every response answers a fire counted before.
    pub fn record_action(&mut self)
        requires
            old(self)@.dismissed_count + old(self)@.acted_on_count < old(self)@.total_fires,
        ensures
            responses_within_fires(final(self)@),
            final(self)@ == (NoiseScoreView {
                acted_on_count: old(self)@.acted_on_count + 1,
                ..old(self)@
            }),
    {
        proof {
            use_type_invariant(&*self);
        }
        self.acted_on_count = self.acted_on_count + 1;
    }

    /// Folds an acknowledgement latency of `ack_secs` into the running mean over
    /// `dismissed + acted_on` responses.
    pub fn update_avg_ack_time(&mut self, ack_secs: i64)
        ensures
            responses_within_fires(final(self)@),
            final(self)@ == (NoiseScoreView {
                avg_time_to_ack_secs: next_average(
                    old(self)@.avg_time_to_ack_secs,
                    (old(self)@.dismissed_count + old(self)@.acted_on_count) as int,
                    ack_secs as int,
                ),
                ..old(self)@
            }),
    {
        proof {
            use_type_invariant(&*self);
        }
        let count: u128 = (self.dismissed_count as u128) + (self.acted_on_count as u128);
        if count == 0 {
            self.avg_time_to_ack_secs = ack_secs;
        } else {
            let avg = self.avg_time_to_ack_secs as i128;
            let n = count as i128;
            proof {
                assert(-0x8000_0000_0000_0000 <= avg <= 0x7fff_ffff_ffff_ffff);
                assert(1 <= n <= 0xffff_ffff_ffff_ffff);
                assert(avg * (n - 1) <= 0x7fff_ffff_ffff_ffff * (n - 1)) by (nonlinear_arith)
                    requires
                        avg <= 0x7fff_ffff_ffff_ffff,
                        n >= 1,
                ;
                assert(avg * (n - 1) >= -0x8000_0000_0000_0000 * (n - 1)) by (nonlinear_arith)
                    requires
                        avg >= -0x8000_0000_0000_0000,
                        n >= 1,
                ;
            }
            let num: i128 = avg * (n - 1) + ack_secs as i128;
            let q: i128 = if num >= 0 {
                num / n
            } else {
                -((-num) / n)
            };
            proof {
                let (x, m) = (num as int, n as int);
                assert(x <= 0x7fff_ffff_ffff_ffff * m);
                assert(x >= -0x8000_0000_0000_0000 * m);
                if x >= 0 {
                    assert(x / m <= 0x7fff_ffff_ffff_ffff) by (nonlinear_arith)
                        requires
                            x <= 0x7fff_ffff_ffff_ffff * m,
                            m >= 1,
                            x >= 0,
                    ;
                } else {
                    assert((-x) / m <= 0x8000_0000_0000_0000) by (nonlinear_arith)
                        requires
                            -x <= 0x8000_0000_0000_0000 * m,
                            m >= 1,
                            x < 0,
                    ;
                }
            }
            self.avg_time_to_ack_secs = q as i64;
        }
    }

    /// More than 80% of the fires were dismissed.
    pub fn is_noise(&self) -> (r: bool)
        ensures
            r == is_noise_spec(self@),
    {
        self.total_fires > 0 && 5 * (self.dismissed_count as u128) > 4 * (self.total_fires as u128)
    }

    /// More than 95% of the fires were dismissed.
    pub fn suggest_suppression(&self) -> (r: bool)
        ensures
            r == suggest_suppression_spec(self@),
    {
        self.total_fires > 0 && 20 * (self.dismissed_count as u128) > 19 * (
        self.total_fires as u128)
    }

    pub fn fingerprint(&self) -> (r: &str)
        ensures
            r@ == self@.fingerprint,
    {
        self.fingerprint.as_str()
    }

    pub fn total_fires(&self) -> (r: u64)
        ensures
            r == self@.total_fires,
    {
        self.total_fires
    }

    pub fn dismissed_count(&self) -> (r: u64)
        ensures
            r == self@.dismissed_count,
    {
        self.dismissed_count
    }

    pub fn acted_on_count(&self) -> (r: u64)
        ensures
            r == self@.acted_on_count,
    {
        self.acted_on_count
    }

    /// Fires not yet answered by a recorded response.
    pub fn unanswered_fires(&self) -> (r: u64)
        ensures
            responses_within_fires(self@),
            r == self@.total_fires - self@.dismissed_count - self@.acted_on_count,
    {
        proof {
            use_type_invariant(self);
        }
        self.total_fires - self.dismissed_count - self.acted_on_count
    }

    /// The running mean of acknowledgement latency, in seconds.
    pub fn avg_time_to_ack(&self) -> (r: i64)
        ensures
            r == self@.avg_time_to_ack_secs,
    {
        self.avg_time_to_ack_secs
    }
}

/// Dismissed (true) when acknowledged within 5 seconds, or resolved within 60 seconds of the
/// acknowledgement; acted on (false) otherwise.
pub open spec fn is_dismissal(time_to_ack: int, time_to_resolve: Option<int>) -> bool {
    time_to_ack < 5 || (time_to_resolve matches Some(t) && t < 60)
}

/// Classifies an operator response by its latencies, in seconds.
pub fn classify_response(time_to_ack: i64, time_to_resolve: Option<i64>) -> (r: bool)
    ensures
        r == is_dismissal(
            time_to_ack as int,
            match time_to_resolve {
                Some(t) => Some(t as int),
                None => None,
            },
        ),
{
    if time_to_ack < 5 {
        return true;
    }
    if let Some(resolve_time) = time_to_resolve {
        if resolve_time < 60 {
            return true;
        }
    }
    false
}

/// Records how an operator responded to one alert of this fingerprint. With an acknowledgement,
/// the latencies are creation to acknowledgement and acknowledgement to resolution, and the
/// acknowledgement latency joins the running mean; without one, the latency is creation to
/// resolution alone.
pub fn record_response(
    score: &mut NoiseScore,
    created_at: i64,
    acknowledged_at: Option<i64>,
    resolved_at: i64,
)
    requires
        old(score)@.dismissed_count + old(score)@.acted_on_count < old(score)@.total_fires,
        match acknowledged_at {
            Some(a) => i64::MIN <= a - created_at <= i64::MAX && i64::MIN <= resolved_at - a
                <= i64::MAX,
            None => i64::MIN <= resolved_at - created_at <= i64::MAX,
        },
    ensures
        responses_within_fires(final(score)@),
        final(score)@.dismissed_count + final(score)@.acted_on_count == old(score)@.dismissed_count
            + old(score)@.acted_on_count + 1,
        final(score)@.fingerprint == old(score)@.fingerprint,
        final(score)@.total_fires == old(score)@.total_fires,
        ({
            let dismissed = match acknowledged_at {
                Some(a) => is_dismissal(a - created_at, Some(resolved_at - a)),
                None => is_dismissal(resolved_at - created_at, None),
            };
            &&& final(score)@.dismissed_count == old(score)@.dismissed_count + (if dismissed {
                1int
            } else {
                0int
            })
            &&& final(score)@.acted_on_count == old(score)@.acted_on_count + (if dismissed {
                0int
            } else {
                1int
            })
        }),
        final(score)@.avg_time_to_ack_secs == match acknowledged_at {
            Some(a) => next_average(
                old(score)@.avg_time_to_ack_secs,
                (old(score)@.dismissed_count + old(score)@.acted_on_count + 1) as int,
                a - created_at,
            ),
            None => old(score)@.avg_time_to_ack_secs,
        },
{
    match acknowledged_at {
        Some(acked_at) => {
            let time_to_ack = acked_at - created_at;
            let time_to_resolve = resolved_at - acked_at;
            if classify_response(time_to_ack, Some(time_to_resolve)) {
                score.record_dismiss();
            } else {
                score.record_action();
            }
            score.update_avg_ack_time(time_to_ack);
        },
        None => {
            let total_time = resolved_at - created_at;
            if classify_response(total_time, None) {
                score.record_dismiss();
            } else {
                score.record_action();
            }
        },
    }
}

/// Records fires and classifies responses against a store of noise scores (`NR`); the store
/// is driven by the caller, which loads a score, applies `NoiseScore::record_fire` or
/// `record_response`, and saves it.
pub struct NoiseService<NR> {
    noise_repo: NR,
}

impl<NR> View for NoiseService<NR> {
    type V = NR;

    closed spec fn view(&self) -> NR {
        self.noise_repo
    }
}

impl<NR> NoiseService<NR> {
    pub fn new(noise_repo: NR) -> (r: NoiseService<NR>)
        ensures
            r@ == noise_repo,
    {
        NoiseService { noise_repo }
    }

    /// The store of noise scores.
    pub fn repository(&self) -> (r: &NR)
        ensures
            *r == self@,
    {
        &self.noise_repo
    }
}

/// The counters never hold more responses than fires: a new score satisfies it, a fire keeps
/// it, and so does a response recorded while fewer responses than fires are counted.
pub proof fn lemma_responses_within_fires(
    before: NoiseScoreView,
    after_fire: NoiseScoreView,
    after_dismiss: NoiseScoreView,
    after_action: NoiseScoreView,
    fingerprint: Seq<char>,
)
    requires
        responses_within_fires(before),
        after_fire == (NoiseScoreView { total_fires: before.total_fires + 1, ..before }),
        after_dismiss == (NoiseScoreView { dismissed_count: before.dismissed_count + 1, ..before }),
        after_action == (NoiseScoreView { acted_on_count: before.acted_on_count + 1, ..before }),
    ensures
        responses_within_fires(
            NoiseScoreView {
                fingerprint,
                total_fires: 0,
                dismissed_count: 0,
                acted_on_count: 0,
                avg_time_to_ack_secs: 0,
            },
        ),
        responses_within_fires(after_fire),
        before.dismissed_count + before.acted_on_count < before.total_fires ==> responses_within_fires(after_dismiss),
        before.dismissed_count + before.acted_on_count < before.total_fires ==> responses_within_fires(after_action),
{
}

} // verus!
