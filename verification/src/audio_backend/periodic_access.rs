use crate::time::{Duration, NANOS_PER_SEC};
use vstd::arithmetic::div_mod::*;
use vstd::prelude::*;

verus! {

/// Milliseconds from one report of progress to the next.
pub const PERIODIC_ACCESS_UPDATE_PERIOD_MILLIS: u64 = 100;

/// Calls on a stream of samples once every period of the time that the samples last.
pub struct PeriodicAccess {
    update_frequency: u32,
    samples_until_update: u32,
    duration_played: Duration,
    period: Duration,
}

/// The counters of a periodic wrapper.
pub struct PeriodicAccessView {
    /// Number of samples from one call to the next.
    pub update_frequency: u32,
    /// Number of samples to pull before the next call.
    pub samples_until_update: u32,
    /// The time of the next call.
    pub duration_played: Duration,
    pub period: Duration,
}

impl View for PeriodicAccess {
    type V = PeriodicAccessView;

    closed spec fn view(&self) -> PeriodicAccessView {
        PeriodicAccessView {
            update_frequency: self.update_frequency,
            samples_until_update: self.samples_until_update,
            duration_played: self.duration_played,
            period: self.period,
        }
    }
}

/// Number of interleaved samples that a period holds, held at `u32::MAX`.
pub open spec fn spec_update_frequency(period: Duration, sample_rate: u32, channels: u16) -> u32 {
    let exact = period.nanos * (sample_rate * channels) / 1_000_000_000;
    if exact > u32::MAX {
        u32::MAX
    } else {
        exact as u32
    }
}

impl PeriodicAccessView {
    pub open spec fn wf(self) -> bool {
        self.update_frequency >= 1 && self.samples_until_update >= 1
    }

    /// The call is due with the next sample.
    pub open spec fn due(self) -> bool {
        self.samples_until_update == 1
    }

    /// The counters after one more sample.
    pub open spec fn after_sample(self) -> PeriodicAccessView {
        if self.due() {
            PeriodicAccessView {
                update_frequency: self.update_frequency,
                samples_until_update: self.update_frequency,
                duration_played: Duration {
                    nanos: if self.duration_played.nanos + self.period.nanos > u128::MAX {
                        u128::MAX
                    } else {
                        (self.duration_played.nanos + self.period.nanos) as u128
                    },
                },
                period: self.period,
            }
        } else {
            PeriodicAccessView {
                samples_until_update: (self.samples_until_update - 1) as u32,
                ..self
            }
        }
    }
}

impl PeriodicAccess {
    /// Calls come at least one sample apart, and the next one is at least one sample
    /// away. This holds of every value of the type.
    #[verifier::type_invariant]
    pub open spec fn wf(&self) -> bool {
        self@.wf()
    }

    /// A wrapper for a stream of the given format that calls with the first sample and
    /// then once every `period`.
    pub fn new(sample_rate: u32, channels: u16, period: Duration) -> (access: PeriodicAccess)
        requires
            spec_update_frequency(period, sample_rate, channels) >= 1,
        ensures
            access@ == (PeriodicAccessView {
                update_frequency: spec_update_frequency(period, sample_rate, channels),
                samples_until_update: 1,
                duration_played: Duration { nanos: 0 },
                period,
            }),
            access@.wf(),
    {
        PeriodicAccess {
            update_frequency: Self::update_frequency(period, sample_rate, channels),
            samples_until_update: 1,
            duration_played: Duration::zero(),
            period,
        }
    }

    /// Number of interleaved samples that a period holds, held at `u32::MAX`.
    pub fn update_frequency(period: Duration, sample_rate: u32, channels: u16) -> (frequency: u32)
        ensures
            frequency == spec_update_frequency(period, sample_rate, channels),
    {
        proof {
            assert(sample_rate * channels < 0x1_0000_0000_0000) by (nonlinear_arith)
                requires
                    sample_rate < 0x1_0000_0000,
                    channels < 0x1_0000,
            ;
        }
        let rate: u128 = sample_rate as u128 * (channels as u128);
        if rate == 0 {
            assert(period.nanos * (sample_rate * channels) == 0) by (nonlinear_arith)
                requires
                    sample_rate * channels == 0,
            ;
            return 0;
        }
        let whole: u128 = period.nanos / NANOS_PER_SEC;
        let rest: u128 = period.nanos % NANOS_PER_SEC;
        proof {
            let nanos = period.nanos as int;
            lemma_fundamental_div_mod(nanos, 1_000_000_000);
            assert(nanos * rate == 1_000_000_000 * (whole * rate) + rest * rate)
                by (nonlinear_arith)
                requires
                    nanos == 1_000_000_000 * whole + rest,
            ;
            assert(rest * rate >= 0 && whole * rate >= whole) by (nonlinear_arith)
                requires
                    rest >= 0,
                    whole >= 0,
                    rate >= 1,
            ;
            lemma_hoist_over_denominator(rest * rate, whole * rate, 1_000_000_000);
            lemma_div_pos_is_pos(rest * rate, 1_000_000_000);
            assert(nanos * rate / 1_000_000_000 == whole * rate + rest * rate / 1_000_000_000);
        }
        if whole > u32::MAX as u128 {
            return u32::MAX;
        }
        proof {
            assert(whole * rate < 0x1_0000_0000 * 0x1_0000_0000_0000) by (nonlinear_arith)
                requires
                    whole < 0x1_0000_0000,
                    rate < 0x1_0000_0000_0000,
                    whole >= 0,
                    rate >= 0,
            ;
            assert(rest * rate < 1_000_000_000 * 0x1_0000_0000_0000) by (nonlinear_arith)
                requires
                    rest < 1_000_000_000,
                    rate < 0x1_0000_0000_0000,
                    rest >= 0,
                    rate >= 0,
            ;
        }
        let exact: u128 = whole * rate + rest * rate / NANOS_PER_SEC;
        if exact > u32::MAX as u128 {
            u32::MAX
        } else {
            exact as u32
        }
    }

    /// Takes note of a pull. Returns the time played so far where the call is due with
    /// this sample.
    pub fn next(&mut self) -> (call: Option<Duration>)
        ensures
            call == if old(self)@.due() {
                Some(old(self)@.duration_played)
            } else {
                None
            },
            final(self)@ == old(self)@.after_sample(),
            final(self)@.wf(),
    {
        proof {
            use_type_invariant(&*self);
        }
        if self.samples_until_update == 1 {
            let played = self.duration_played;
            self.duration_played = self.duration_played.saturating_add(self.period);
            self.samples_until_update = self.update_frequency;
            Some(played)
        } else {
            self.samples_until_update -= 1;
            None
        }
    }
}

} // verus!
