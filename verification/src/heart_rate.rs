//! The running heart-rate status and the readings folded into it.

use vstd::prelude::*;

pub mod measurement;
pub mod twitcher;
pub mod websocket;

use measurement::HeartRateMeasurement;
use twitcher::{is_falling, is_rising, Twitcher};

verus! {

/// Nanoseconds in one second.
pub const NANOS_PER_SEC: u64 = 1_000_000_000;

/// Nanoseconds in one millisecond.
pub const NANOS_PER_MILLI: u64 = 1_000_000;

/// The time between two consecutive heartbeats, in whole nanoseconds.
#[derive(Clone, Copy, Debug, PartialEq, Eq, Structural)]
pub struct RrInterval {
    pub nanos: u128,
}

impl RrInterval {
    /// An interval of `nanos` nanoseconds.
    pub fn from_nanos(nanos: u128) -> (r: RrInterval)
        ensures
            r.nanos == nanos,
    {
        RrInterval { nanos }
    }

    /// An interval of `millis` milliseconds.
    pub fn from_millis(millis: u64) -> (r: RrInterval)
        ensures
            r.nanos == millis * NANOS_PER_MILLI,
    {
        let wide: u128 = millis as u128;
        RrInterval { nanos: wide * (NANOS_PER_MILLI as u128) }
    }

    /// The whole seconds in this interval.
    pub fn as_secs(&self) -> (secs: u128)
        ensures
            secs == self.nanos / (NANOS_PER_SEC as u128),
    {
        self.nanos / (NANOS_PER_SEC as u128)
    }

    /// What this interval holds beyond its whole seconds, in nanoseconds.
    pub fn subsec_nanos(&self) -> (nanos: u32)
        ensures
            nanos == self.nanos % (NANOS_PER_SEC as u128),
            nanos < NANOS_PER_SEC,
    {
        (self.nanos % (NANOS_PER_SEC as u128)) as u32
    }

    /// The whole milliseconds in this interval; the remainder is dropped.
    pub fn as_millis(&self) -> (ms: u128)
        ensures
            ms == self.nanos / (NANOS_PER_MILLI as u128),
    {
        self.nanos / (NANOS_PER_MILLI as u128)
    }

    /// This interval shortened by `other`, and zero where `other` is the longer.
    pub open spec fn shortened_by(self, other: RrInterval) -> RrInterval {
        RrInterval {
            nanos: if self.nanos >= other.nanos {
                (self.nanos - other.nanos) as u128
            } else {
                0
            },
        }
    }

    /// This interval shortened by `other`, and zero where `other` is the longer.
    pub fn saturating_sub(&self, other: RrInterval) -> (r: RrInterval)
        ensures
            r == self.shortened_by(other),
    {
        if self.nanos >= other.nanos {
            RrInterval { nanos: self.nanos - other.nanos }
        } else {
            RrInterval { nanos: 0 }
        }
    }
}

/// What is known of the sensor's battery.
#[derive(Clone, Copy, Debug, PartialEq, Eq, Structural)]
pub enum BatteryLevel {
    /// Nothing has been heard yet.
    Unknown,
    /// The source does not report a battery level.
    NotReported,
    /// The charge in percent.
    Level(u8),
}

impl Default for BatteryLevel {
    fn default() -> (r: BatteryLevel)
        ensures
            r == BatteryLevel::Unknown,
    {
        BatteryLevel::Unknown
    }
}

/// The current belief about the heart: the newest reading of each kind.
///
/// Zero beats per minute means that no heartbeat is detected.
#[derive(Debug, PartialEq)]
pub struct HeartRateStatus {
    pub heart_rate_bpm: u16,
    pub rr_intervals: Vec<RrInterval>,
    pub battery_level: BatteryLevel,
    /// The newest interval is shorter than the heart rate lets expect.
    pub twitch_up: bool,
    /// The newest interval is longer than the heart rate lets expect.
    pub twitch_down: bool,
}

/// What a status holds, as mathematical values.
pub struct StatusView {
    pub heart_rate_bpm: u16,
    pub rr_intervals: Seq<RrInterval>,
    pub battery_level: BatteryLevel,
    pub twitch_up: bool,
    pub twitch_down: bool,
}

impl View for HeartRateStatus {
    type V = StatusView;

    open spec fn view(&self) -> StatusView {
        StatusView {
            heart_rate_bpm: self.heart_rate_bpm,
            rr_intervals: self.rr_intervals@,
            battery_level: self.battery_level,
            twitch_up: self.twitch_up,
            twitch_down: self.twitch_down,
        }
    }
}

/// The status before anything was heard: no heartbeat, no interval, battery
/// unknown, no twitch.
pub open spec fn default_status() -> StatusView {
    StatusView {
        heart_rate_bpm: 0,
        rr_intervals: Seq::empty(),
        battery_level: BatteryLevel::Unknown,
        twitch_up: false,
        twitch_down: false,
    }
}

impl Default for HeartRateStatus {
    fn default() -> (r: HeartRateStatus)
        ensures
            r@ == default_status(),
    {
        HeartRateStatus {
            heart_rate_bpm: 0,
            rr_intervals: Vec::new(),
            battery_level: BatteryLevel::Unknown,
            twitch_up: false,
            twitch_down: false,
        }
    }
}

impl Clone for HeartRateStatus {
    fn clone(&self) -> (r: HeartRateStatus)
        ensures
            r@ == self@,
    {
        let mut rr_intervals: Vec<RrInterval> = Vec::with_capacity(self.rr_intervals.len());
        let mut i: usize = 0;
        while i < self.rr_intervals.len()
            invariant
                i <= self.rr_intervals@.len(),
                rr_intervals@ == self.rr_intervals@.take(i as int),
            decreases self.rr_intervals@.len() - i,
        {
            rr_intervals.push(self.rr_intervals[i]);
            i = i + 1;
        }
        assert(rr_intervals@ =~= self.rr_intervals@);
        HeartRateStatus {
            heart_rate_bpm: self.heart_rate_bpm,
            rr_intervals,
            battery_level: self.battery_level,
            twitch_up: self.twitch_up,
            twitch_down: self.twitch_down,
        }
    }
}

/// One incoming reading, whatever its source: the heart rate, and the newest
/// interval and the battery charge where the source gave them.
#[derive(Clone, Copy, Debug, PartialEq, Eq, Structural)]
pub struct StatusUpdate {
    pub bpm: u16,
    pub latest_interval: Option<RrInterval>,
    pub battery: Option<u8>,
}

/// The last element of `intervals`, if there is one.
pub open spec fn newest_interval(intervals: Seq<RrInterval>) -> Option<RrInterval> {
    if intervals.len() > 0 {
        Some(intervals.last())
    } else {
        None
    }
}

/// The update that a sensor measurement amounts to: its heart rate and the
/// newest of its intervals. A measurement says nothing of the battery.
pub open spec fn update_of_measurement(m: measurement::MeasurementView) -> StatusUpdate {
    StatusUpdate { bpm: m.bpm, latest_interval: newest_interval(m.rr_intervals), battery: None }
}

/// The status that follows `status` once `update` is folded in, for a twitch
/// threshold of `threshold_ppm` millionths.
///
/// The heart rate is replaced. The intervals are replaced by the one newest
/// interval where the update has one, and kept otherwise. The battery level is
/// replaced where the update has one, and kept otherwise. The twitch flags are
/// those of the new heart rate and the new intervals.
pub open spec fn fold_update(status: StatusView, update: StatusUpdate, threshold_ppm: u32)
    -> StatusView {
    let rr_intervals = match update.latest_interval {
        Some(interval) => seq![interval],
        None => status.rr_intervals,
    };
    let battery_level = match update.battery {
        Some(level) => BatteryLevel::Level(level),
        None => status.battery_level,
    };
    StatusView {
        heart_rate_bpm: update.bpm,
        rr_intervals,
        battery_level,
        twitch_up: is_rising(threshold_ppm, update.bpm, rr_intervals),
        twitch_down: is_falling(threshold_ppm, update.bpm, rr_intervals),
    }
}

impl StatusUpdate {
    /// The update that `m` amounts to.
    pub fn from_measurement(m: &HeartRateMeasurement) -> (u: StatusUpdate)
        ensures
            u == update_of_measurement(m@),
    {
        let n: usize = m.rr_intervals.len();
        let latest_interval: Option<RrInterval> = if n > 0 {
            Some(m.rr_intervals[n - 1])
        } else {
            None
        };
        StatusUpdate { bpm: m.bpm, latest_interval, battery: None }
    }
}

impl HeartRateStatus {
    /// Folds one update into the status and sets the twitch flags anew.
    pub fn apply_update(&mut self, update: &StatusUpdate, twitcher: &Twitcher)
        ensures
            final(self)@ == fold_update(old(self)@, *update, twitcher.threshold_ppm()),
    {
        self.heart_rate_bpm = update.bpm;
        if let Some(level) = update.battery {
            self.battery_level = BatteryLevel::Level(level);
        }
        if let Some(interval) = update.latest_interval {
            self.rr_intervals.clear();
            self.rr_intervals.push(interval);
            assert(self.rr_intervals@ =~= seq![interval]);
        }
        let (twitch_up, twitch_down) = twitcher.handle(update.bpm, &self.rr_intervals);
        self.twitch_up = twitch_up;
        self.twitch_down = twitch_down;
    }

    /// Folds a sensor measurement into the status.
    pub fn apply_measurement(&mut self, m: &HeartRateMeasurement, twitcher: &Twitcher)
        ensures
            final(self)@ == fold_update(
                old(self)@,
                update_of_measurement(m@),
                twitcher.threshold_ppm(),
            ),
    {
        let update = StatusUpdate::from_measurement(m);
        self.apply_update(&update, twitcher);
    }
}

/// Folding the same update in a second time changes nothing: not the twitch
/// flags, nor anything else in the status.
pub proof fn lemma_fold_update_idempotent(
    status: StatusView,
    update: StatusUpdate,
    threshold_ppm: u32,
)
    ensures
        fold_update(fold_update(status, update, threshold_ppm), update, threshold_ppm)
            == fold_update(status, update, threshold_ppm),
{
}

} // verus!
