//! Detection of sudden changes in the beat-to-beat interval.
//!
//! A heart that beats `bpm` times a minute lets expect an interval of
//! 60 s / `bpm`. The newest interval twitches when it leaves that expectation
//! by more than a configured fraction of it. All of this is decided in whole
//! numbers: with the interval `a` in nanoseconds and the fraction `t` in
//! millionths, `60 s / bpm - a > t * (60 s / bpm)` says the same as
//! `60e9 - a * bpm > t * 60_000`.

use vstd::prelude::*;

use super::RrInterval;

verus! {

/// Nanoseconds in one minute.
pub const NANOS_PER_MINUTE: u64 = 60_000_000_000;

/// The threshold counts millionths.
pub const THRESHOLD_SCALE: u64 = 1_000_000;

/// One millionth of a minute, in nanoseconds.
pub const NANOS_PER_MINUTE_MILLIONTH: u64 = NANOS_PER_MINUTE / THRESHOLD_SCALE;

/// By how much `bpm` intervals of the given length fall short of one minute,
/// in nanoseconds; negative where they exceed it.
pub open spec fn shortfall(bpm: u16, interval: RrInterval) -> int {
    NANOS_PER_MINUTE - interval.nanos * bpm
}

/// The largest shortfall or excess that is no twitch yet: the threshold's
/// share of one minute, in nanoseconds.
pub open spec fn allowance(threshold_ppm: u32) -> int {
    threshold_ppm * NANOS_PER_MINUTE_MILLIONTH
}

/// The heart sped up: the newest interval is shorter than the expected one by
/// more than the threshold. Never so without an interval or without a
/// heartbeat.
pub open spec fn is_rising(threshold_ppm: u32, bpm: u16, intervals: Seq<RrInterval>) -> bool {
    &&& intervals.len() > 0
    &&& bpm > 0
    &&& shortfall(bpm, intervals.last()) > allowance(threshold_ppm)
}

/// The heart slowed down: the newest interval is longer than the expected one
/// by more than the threshold. Never so without an interval or without a
/// heartbeat.
pub open spec fn is_falling(threshold_ppm: u32, bpm: u16, intervals: Seq<RrInterval>) -> bool {
    &&& intervals.len() > 0
    &&& bpm > 0
    &&& -shortfall(bpm, intervals.last()) > allowance(threshold_ppm)
}

/// The twitch detector. It keeps nothing between calls but its threshold.
#[derive(Clone, Copy, Debug, PartialEq, Eq, Structural)]
pub struct Twitcher {
    threshold_ppm: u32,
}

impl Twitcher {
    /// The threshold in millionths of the expected interval.
    pub closed spec fn threshold_ppm(&self) -> u32 {
        self.threshold_ppm
    }

    /// A detector whose threshold is `threshold_ppm` millionths of the
    /// expected interval: 100_000 stands for a tenth.
    pub fn new(threshold_ppm: u32) -> (t: Twitcher)
        ensures
            t.threshold_ppm() == threshold_ppm,
    {
        Twitcher { threshold_ppm }
    }

    /// The threshold this detector was made with.
    pub fn threshold(&self) -> (ppm: u32)
        ensures
            ppm == self.threshold_ppm(),
    {
        self.threshold_ppm
    }

    /// Judges the newest of `rr_intervals` against the interval that `bpm`
    /// lets expect. Returns whether the heart sped up and whether it slowed
    /// down; a deviation of exactly the threshold is neither.
    pub fn handle(&self, bpm: u16, rr_intervals: &Vec<RrInterval>) -> (twitch: (bool, bool))
        ensures
            twitch.0 == is_rising(self.threshold_ppm(), bpm, rr_intervals@),
            twitch.1 == is_falling(self.threshold_ppm(), bpm, rr_intervals@),
    {
        let n: usize = rr_intervals.len();
        if n == 0 || bpm == 0 {
            return (false, false);
        }
        let newest: RrInterval = rr_intervals[n - 1];
        let ppm: u128 = self.threshold_ppm as u128;
        let unit: u128 = NANOS_PER_MINUTE_MILLIONTH as u128;
        assert(unit == 60_000);
        let allowed: u128 = ppm * unit;
        let minute: u128 = NANOS_PER_MINUTE as u128;
        match newest.nanos.checked_mul(bpm as u128) {
            Some(scaled) => {
                if scaled < minute {
                    (minute - scaled > allowed, false)
                } else {
                    (false, scaled - minute > allowed)
                }
            },
            None => (false, true),
        }
    }
}

/// No interval is both a rise and a fall.
pub proof fn lemma_twitch_exclusive(threshold_ppm: u32, bpm: u16, intervals: Seq<RrInterval>)
    ensures
        !(is_rising(threshold_ppm, bpm, intervals) && is_falling(threshold_ppm, bpm, intervals)),
{
}

} // verus!
