//! When it goes out: the emission session as a state machine.
//!
//! Two things run side by side. Every status that arrives is reported at
//! once. And a pulse beats at the period of the newest interval, so that its
//! frequency follows the heart.

use vstd::prelude::*;

use super::address::{addresses_of, AddressesView, OSCAddresses};
use super::message::{
    beat_param_packet, bool_message_bytes, bpm_bundle, form_bpm_bundle, MessageView, OscArg,
    OscBundle,
};
use crate::heart_rate::twitcher::NANOS_PER_MINUTE;
use crate::heart_rate::{
    default_status, fold_update, HeartRateStatus, RrInterval, StatusUpdate, StatusView,
};
use crate::settings::OSCSettings;

verus! {

/// The interval between beats at a steady `bpm`, to the nanosecond below.
pub open spec fn interval_of_bpm(bpm: u16) -> RrInterval {
    RrInterval { nanos: (NANOS_PER_MINUTE as int / bpm as int) as u128 }
}

/// The interval that a heart rate implies. It stands in for a measured
/// interval while the source has sent none.
pub fn rr_from_bpm(bpm: u16) -> (interval: RrInterval)
    requires
        bpm > 0,
    ensures
        interval == interval_of_bpm(bpm),
{
    let nanos: u64 = NANOS_PER_MINUTE / (bpm as u64);
    RrInterval { nanos: nanos as u128 }
}

/// By how many beats per minute a mimicked heart rate is moved off the last
/// real one. It is not moved at all.
pub const MIMIC_JITTER: i16 = 0;

/// `bpm` moved by `jitter`, kept within what a heart rate can hold.
pub open spec fn jittered(bpm: u16, jitter: i16) -> u16 {
    let moved = bpm + jitter;
    if moved < 0 {
        0
    } else if moved > u16::MAX {
        u16::MAX
    } else {
        moved as u16
    }
}

/// Moves `bpm` by `jitter`, stopping at either end of the range.
fn add_jitter(bpm: u16, jitter: i16) -> (moved: u16)
    ensures
        moved == jittered(bpm, jitter),
{
    let sum: i32 = bpm as i32 + jitter as i32;
    if sum < 0 {
        0
    } else if sum > 0xffff {
        0xffff
    } else {
        sum as u16
    }
}

/// The status to show while the sensor is away: the last known one, its
/// heart rate moved by the jitter, which is none.
pub fn mimic_hr_activity(hr_status: &HeartRateStatus) -> (mimic: HeartRateStatus)
    ensures
        mimic@ == (StatusView {
            heart_rate_bpm: jittered(hr_status.heart_rate_bpm, MIMIC_JITTER),
            ..hr_status@
        }),
        mimic@ == hr_status@,
{
    let mut mimic = hr_status.clone();
    mimic.heart_rate_bpm = add_jitter(mimic.heart_rate_bpm, MIMIC_JITTER);
    mimic
}

/// Where the emission session stands.
#[derive(Clone, Copy, Debug, PartialEq, Eq, Structural)]
pub enum SchedulerState {
    /// No heartbeat is known.
    Idle,
    /// A heartbeat is known and reported as it comes.
    Active,
    /// The source reported no heartbeat, and the last known one is shown on.
    Mimicking,
    /// The session has ended.
    ShuttingDown,
}

/// How often the last known status is sent again while mimicking, in seconds.
pub const MIMIC_UPDATE_SECS: u64 = 7;

/// The pulse period before any heart rate is known, in milliseconds.
pub const INITIAL_RR_MILLIS: u64 = 1000;

/// Decides what goes out, and when, over one emission session.
///
/// The scheduler is the session's state. Whoever drives it waits for the
/// next status, for the pulse timer, for the mimic timer and for the end of
/// the session, hands each of these to the scheduler as it happens, and
/// sends what the scheduler gives back.
#[derive(Debug)]
pub struct EmissionScheduler {
    state: SchedulerState,
    hr_status: HeartRateStatus,
    toggle_beat: bool,
    use_real_rr: bool,
    latest_rr: RrInterval,
    pulse_length: RrInterval,
    hide_disconnections: bool,
    addresses: OSCAddresses,
}

/// The scheduler's state as mathematical values.
pub struct SchedulerView {
    pub state: SchedulerState,
    /// The status last taken over from the source.
    pub hr_status: StatusView,
    /// The value that the beat toggle takes at the next pulse.
    pub toggle_beat: bool,
    /// A measured interval has been seen at least once.
    pub use_real_rr: bool,
    /// The period of the pulse.
    pub latest_rr: RrInterval,
    /// How long the pulse stays high.
    pub pulse_length: RrInterval,
    /// Keep showing the last heart rate when the source reports none.
    pub hide_disconnections: bool,
    pub addresses: AddressesView,
}

/// What holds of the scheduler at all times: it is active or mimicking only
/// with a heartbeat in hand, idle only without one, and it mimics only where
/// the settings ask for it.
pub open spec fn coherent(s: SchedulerView) -> bool {
    &&& s.state == SchedulerState::Idle ==> s.hr_status.heart_rate_bpm == 0
    &&& s.state == SchedulerState::Active ==> s.hr_status.heart_rate_bpm > 0
    &&& s.state == SchedulerState::Mimicking ==> s.hr_status.heart_rate_bpm > 0
        && s.hide_disconnections
}

/// The scheduler at the start of a session under `osc_settings`.
pub open spec fn initial_scheduler(osc_settings: OSCSettings) -> SchedulerView {
    SchedulerView {
        state: SchedulerState::Idle,
        hr_status: default_status(),
        toggle_beat: true,
        use_real_rr: false,
        latest_rr: RrInterval { nanos: 1_000_000_000 },
        pulse_length: RrInterval { nanos: (osc_settings.pulse_length_ms * 1_000_000) as u128 },
        hide_disconnections: osc_settings.hide_disconnections_pre,
        addresses: addresses_of(osc_settings),
    }
}

/// The pulse period once `data`, which has a heartbeat, is taken over: its
/// newest interval where it has one; else the interval that its heart rate
/// implies, but only as long as no measured interval was ever seen; else
/// the period as it was.
pub open spec fn period_after(s: SchedulerView, data: StatusView) -> RrInterval {
    if data.rr_intervals.len() > 0 {
        data.rr_intervals.last()
    } else if !s.use_real_rr {
        interval_of_bpm(data.heart_rate_bpm)
    } else {
        s.latest_rr
    }
}

/// The scheduler after a new status has arrived.
///
/// A status with a heartbeat is taken over and makes the scheduler active.
/// One without is taken over where disconnections are shown, and makes the
/// scheduler idle; where they are hidden it is dropped, and a scheduler that
/// has a heartbeat in hand starts, or goes on, to mimic.
pub open spec fn after_status(s: SchedulerView, data: StatusView) -> SchedulerView {
    if s.state == SchedulerState::ShuttingDown {
        s
    } else if data.heart_rate_bpm > 0 {
        SchedulerView {
            state: SchedulerState::Active,
            hr_status: data,
            use_real_rr: s.use_real_rr || data.rr_intervals.len() > 0,
            latest_rr: period_after(s, data),
            ..s
        }
    } else if s.hide_disconnections {
        SchedulerView {
            state: if s.state == SchedulerState::Idle {
                SchedulerState::Idle
            } else {
                SchedulerState::Mimicking
            },
            ..s
        }
    } else {
        SchedulerView { state: SchedulerState::Idle, hr_status: data, ..s }
    }
}

/// The bundle that goes out when a new status arrives: that of the status,
/// unless the status is dropped or the session has ended.
pub open spec fn bundle_on_status(s: SchedulerView, data: StatusView) -> Option<Seq<MessageView>> {
    if s.state != SchedulerState::ShuttingDown && (data.heart_rate_bpm > 0
        || !s.hide_disconnections) {
        Some(bpm_bundle(data, s.addresses))
    } else {
        None
    }
}

/// Whether the pulse runs: a heartbeat is in hand and the session goes on.
pub open spec fn pulse_runs(s: SchedulerView) -> bool {
    s.state != SchedulerState::ShuttingDown && s.hr_status.heart_rate_bpm > 0
}

/// One beat of the pulse, as packets and waits in the order given: send
/// `toggle` and `pulse_on`, wait for `hold`, send `pulse_off`, and set the
/// pulse timer to `rearm`.
#[derive(Debug, Clone, PartialEq)]
pub struct BeatPulse {
    pub toggle: Vec<u8>,
    pub pulse_on: Vec<u8>,
    pub hold: RrInterval,
    pub pulse_off: Vec<u8>,
    pub rearm: RrInterval,
}

/// A beat as mathematical values.
pub struct BeatPulseView {
    pub toggle: Seq<u8>,
    pub pulse_on: Seq<u8>,
    pub hold: RrInterval,
    pub pulse_off: Seq<u8>,
    pub rearm: RrInterval,
}

impl View for BeatPulse {
    type V = BeatPulseView;

    open spec fn view(&self) -> BeatPulseView {
        BeatPulseView {
            toggle: self.toggle@,
            pulse_on: self.pulse_on@,
            hold: self.hold,
            pulse_off: self.pulse_off@,
            rearm: self.rearm,
        }
    }
}

/// The beat that a running pulse gives when its timer fires: the toggle
/// takes its next value, the pulse goes high for the pulse length and low
/// again, and the timer is set to the period less the pulse length, or to
/// zero where the pulse is the longer.
pub open spec fn beat_of(s: SchedulerView) -> BeatPulseView {
    BeatPulseView {
        toggle: bool_message_bytes(s.addresses.beat_toggle, s.toggle_beat),
        pulse_on: bool_message_bytes(s.addresses.beat_pulse, true),
        hold: s.pulse_length,
        pulse_off: bool_message_bytes(s.addresses.beat_pulse, false),
        rearm: s.latest_rr.shortened_by(s.pulse_length),
    }
}

/// The scheduler after the pulse timer has fired: a running pulse flips the
/// toggle for the next beat.
pub open spec fn after_beat_tick(s: SchedulerView) -> SchedulerView {
    if pulse_runs(s) {
        SchedulerView { toggle_beat: !s.toggle_beat, ..s }
    } else {
        s
    }
}

/// The bundle that goes out when the mimic timer fires: that of the last
/// known status while mimicking, none otherwise.
pub open spec fn bundle_on_mimic_tick(s: SchedulerView) -> Option<Seq<MessageView>> {
    if s.state == SchedulerState::Mimicking {
        Some(bpm_bundle(s.hr_status, s.addresses))
    } else {
        None
    }
}

/// What tells the receiver that nothing is known: the bundle of the default
/// status, and both beat parameters switched off.
#[derive(Debug, Clone, PartialEq)]
pub struct ResetPackets {
    pub bundle: OscBundle,
    pub beat_toggle: Vec<u8>,
    pub beat_pulse: Vec<u8>,
}

impl EmissionScheduler {
    /// The scheduler's state as mathematical values.
    pub closed spec fn view(&self) -> SchedulerView {
        SchedulerView {
            state: self.state,
            hr_status: self.hr_status@,
            toggle_beat: self.toggle_beat,
            use_real_rr: self.use_real_rr,
            latest_rr: self.latest_rr,
            pulse_length: self.pulse_length,
            hide_disconnections: self.hide_disconnections,
            addresses: self.addresses@,
        }
    }

    /// The scheduler is in a state that it can have reached.
    pub open spec fn wf(&self) -> bool {
        coherent(self@)
    }

    /// Sets up the session: idle, with a pulse period of one second.
    pub fn new(osc_settings: &OSCSettings) -> (scheduler: EmissionScheduler)
        ensures
            scheduler.wf(),
            scheduler@ == initial_scheduler(*osc_settings),
    {
        EmissionScheduler {
            state: SchedulerState::Idle,
            hr_status: HeartRateStatus::default(),
            toggle_beat: true,
            use_real_rr: false,
            latest_rr: RrInterval::from_millis(INITIAL_RR_MILLIS),
            pulse_length: RrInterval::from_millis(osc_settings.pulse_length_ms as u64),
            hide_disconnections: osc_settings.hide_disconnections_pre,
            addresses: OSCAddresses::new(osc_settings),
        }
    }

    /// Where the session stands.
    pub fn state(&self) -> (state: SchedulerState)
        ensures
            state == self@.state,
    {
        self.state
    }

    /// The period of the pulse.
    pub fn latest_rr(&self) -> (period: RrInterval)
        ensures
            period == self@.latest_rr,
    {
        self.latest_rr
    }

    /// Whether a measured interval has been seen.
    pub fn uses_real_rr(&self) -> (seen: bool)
        ensures
            seen == self@.use_real_rr,
    {
        self.use_real_rr
    }

    /// How long the pulse stays high.
    pub fn pulse_length(&self) -> (length: RrInterval)
        ensures
            length == self@.pulse_length,
    {
        self.pulse_length
    }

    /// The status last taken over.
    pub fn hr_status(&self) -> (status: &HeartRateStatus)
        ensures
            status@ == self@.hr_status,
    {
        &self.hr_status
    }

    /// The packets that open and close a session.
    pub fn reset_packets(&self) -> (packets: ResetPackets)
        ensures
            packets.bundle@ == bpm_bundle(default_status(), self@.addresses),
            packets.beat_toggle@ == bool_message_bytes(self@.addresses.beat_toggle, false),
            packets.beat_pulse@ == bool_message_bytes(self@.addresses.beat_pulse, false),
    {
        ResetPackets {
            bundle: form_bpm_bundle(&HeartRateStatus::default(), &self.addresses),
            beat_toggle: beat_param_packet(false, &self.addresses.beat_toggle),
            beat_pulse: beat_param_packet(false, &self.addresses.beat_pulse),
        }
    }

    /// Takes a new status from the source. Returns the bundle to send, if
    /// there is one.
    pub fn on_status(&mut self, data: HeartRateStatus) -> (bundle: Option<OscBundle>)
        ensures
            old(self).wf() ==> final(self).wf(),
            final(self)@ == after_status(old(self)@, data@),
            match bundle {
                Some(b) => bundle_on_status(old(self)@, data@) == Some(b@),
                None => bundle_on_status(old(self)@, data@) is None,
            },
    {
        if self.state == SchedulerState::ShuttingDown {
            return None;
        }
        if data.heart_rate_bpm > 0 {
            let n: usize = data.rr_intervals.len();
            if n > 0 {
                self.latest_rr = data.rr_intervals[n - 1];
                self.use_real_rr = true;
            } else if !self.use_real_rr {
                self.latest_rr = rr_from_bpm(data.heart_rate_bpm);
            }
            self.state = SchedulerState::Active;
            self.hr_status = data;
            Some(form_bpm_bundle(&self.hr_status, &self.addresses))
        } else if self.hide_disconnections {
            if self.state != SchedulerState::Idle {
                self.state = SchedulerState::Mimicking;
            }
            None
        } else {
            self.state = SchedulerState::Idle;
            self.hr_status = data;
            Some(form_bpm_bundle(&self.hr_status, &self.addresses))
        }
    }

    /// The pulse timer has fired. Returns the beat to play, if the pulse
    /// runs.
    pub fn on_beat_tick(&mut self) -> (beat: Option<BeatPulse>)
        ensures
            old(self).wf() ==> final(self).wf(),
            final(self)@ == after_beat_tick(old(self)@),
            match beat {
                Some(b) => pulse_runs(old(self)@) && b@ == beat_of(old(self)@),
                None => !pulse_runs(old(self)@),
            },
    {
        if self.state == SchedulerState::ShuttingDown || self.hr_status.heart_rate_bpm == 0 {
            return None;
        }
        let beat = BeatPulse {
            toggle: beat_param_packet(self.toggle_beat, &self.addresses.beat_toggle),
            pulse_on: beat_param_packet(true, &self.addresses.beat_pulse),
            hold: self.pulse_length,
            pulse_off: beat_param_packet(false, &self.addresses.beat_pulse),
            rearm: self.latest_rr.saturating_sub(self.pulse_length),
        };
        self.toggle_beat = !self.toggle_beat;
        Some(beat)
    }

    /// The mimic timer has fired. Returns the bundle to send, if the
    /// scheduler mimics.
    pub fn on_mimic_tick(&self) -> (bundle: Option<OscBundle>)
        ensures
            match bundle {
                Some(b) => bundle_on_mimic_tick(self@) == Some(b@),
                None => bundle_on_mimic_tick(self@) is None,
            },
    {
        if self.state == SchedulerState::Mimicking {
            let mimic = mimic_hr_activity(&self.hr_status);
            Some(form_bpm_bundle(&mimic, &self.addresses))
        } else {
            None
        }
    }

    /// Ends the session. Returns the packets that tell the receiver so.
    pub fn on_shutdown(&mut self) -> (packets: ResetPackets)
        ensures
            final(self).wf(),
            final(self)@ == (SchedulerView { state: SchedulerState::ShuttingDown, ..old(self)@ }),
            packets.bundle@ == bpm_bundle(default_status(), old(self)@.addresses),
            packets.beat_toggle@ == bool_message_bytes(old(self)@.addresses.beat_toggle, false),
            packets.beat_pulse@ == bool_message_bytes(old(self)@.addresses.beat_pulse, false),
    {
        self.state = SchedulerState::ShuttingDown;
        self.reset_packets()
    }
}

/// The scheduler after a run of statuses, taken in order.
pub open spec fn after_statuses(s: SchedulerView, run: Seq<StatusView>) -> SchedulerView
    decreases run.len(),
{
    if run.len() == 0 {
        s
    } else {
        after_status(after_statuses(s, run.drop_last()), run.last())
    }
}

/// The scheduler after a run of updates that reach it through a status: each
/// update is folded into the status, and the status is handed on.
pub open spec fn after_updates(
    s: SchedulerView,
    status: StatusView,
    run: Seq<StatusUpdate>,
    threshold_ppm: u32,
) -> (SchedulerView, StatusView)
    decreases run.len(),
{
    if run.len() == 0 {
        (s, status)
    } else {
        let (before, held) = after_updates(s, status, run.drop_last(), threshold_ppm);
        let folded = fold_update(held, run.last(), threshold_ppm);
        (after_status(before, folded), folded)
    }
}

/// The bundle says that no heartbeat is there.
pub open spec fn reports_disconnected(bundle: Seq<MessageView>) -> bool {
    exists|i: int| 0 <= i < bundle.len() && bundle[i].arg == OscArg::Bool(false)
}

/// A scheduler that can be reached stays so whatever status arrives and
/// whenever the pulse timer fires.
pub proof fn lemma_coherence_kept(s: SchedulerView, data: StatusView)
    requires
        coherent(s),
    ensures
        coherent(after_status(s, data)),
        coherent(after_beat_tick(s)),
{
}

/// The session's transitions. The first heartbeat makes an idle scheduler
/// active. A status without heartbeat makes an active one idle, or, where
/// disconnections are hidden, mimicking. Any heartbeat makes a mimicking one
/// active again. Nothing leaves the end of the session.
pub proof fn lemma_transitions(s: SchedulerView, data: StatusView)
    requires
        coherent(s),
    ensures
        s.state == SchedulerState::Idle && data.heart_rate_bpm > 0 ==> after_status(s, data).state
            == SchedulerState::Active,
        s.state == SchedulerState::Active && data.heart_rate_bpm == 0 && !s.hide_disconnections
            ==> after_status(s, data).state == SchedulerState::Idle,
        s.state == SchedulerState::Active && data.heart_rate_bpm == 0 && s.hide_disconnections
            ==> after_status(s, data).state == SchedulerState::Mimicking,
        s.state == SchedulerState::Mimicking && data.heart_rate_bpm > 0 ==> after_status(
            s,
            data,
        ).state == SchedulerState::Active,
        s.state == SchedulerState::ShuttingDown ==> after_status(s, data) == s && after_beat_tick(s)
            == s,
{
}

/// Once a measured interval has been seen, the pulse period is never again
/// derived from the heart rate: a new status leaves it as it is or sets it
/// to the newest interval that the status brings.
pub proof fn lemma_measured_period_kept(s: SchedulerView, data: StatusView)
    requires
        s.use_real_rr,
    ensures
        after_status(s, data).use_real_rr,
        after_status(s, data).latest_rr == s.latest_rr || (data.rr_intervals.len() > 0
            && after_status(s, data).latest_rr == data.rr_intervals.last()),
{
}

/// Once a measured interval has been seen, a run of statuses that bring no
/// interval leaves the pulse period untouched, whatever their heart rates.
pub proof fn lemma_period_survives_bare_statuses(s: SchedulerView, run: Seq<StatusView>)
    requires
        s.use_real_rr,
        forall|i: int| 0 <= i < run.len() ==> (#[trigger] run[i]).rr_intervals.len() == 0,
    ensures
        after_statuses(s, run).use_real_rr,
        after_statuses(s, run).latest_rr == s.latest_rr,
    decreases run.len(),
{
    if run.len() > 0 {
        let init = run.drop_last();
        assert forall|i: int| 0 <= i < init.len() implies (#[trigger] init[i]).rr_intervals.len()
            == 0 by {
            assert(init[i] == run[i]);
        }
        lemma_period_survives_bare_statuses(s, init);
    }
}

/// From the source to the pulse: where the status holds a measured interval,
/// a run of updates that bring no interval leaves the status holding that
/// interval, and the pulse period is then what it was or that interval. It
/// is at no point derived from the heart rates that pass. Where the session
/// runs and the updates show a heartbeat, the period is that interval.
pub proof fn lemma_updates_without_interval_keep_period(
    s: SchedulerView,
    status: StatusView,
    run: Seq<StatusUpdate>,
    threshold_ppm: u32,
)
    requires
        status.rr_intervals.len() > 0,
        forall|i: int| 0 <= i < run.len() ==> (#[trigger] run[i]).latest_interval is None,
    ensures
        after_updates(s, status, run, threshold_ppm).1.rr_intervals == status.rr_intervals,
        after_updates(s, status, run, threshold_ppm).0.latest_rr == s.latest_rr || after_updates(
            s,
            status,
            run,
            threshold_ppm,
        ).0.latest_rr == status.rr_intervals.last(),
        s.state != SchedulerState::ShuttingDown && run.len() > 0 && (forall|i: int|
            0 <= i < run.len() ==> (#[trigger] run[i]).bpm > 0) ==> {
            let after = after_updates(s, status, run, threshold_ppm).0;
            &&& after.latest_rr == status.rr_intervals.last()
            &&& after.use_real_rr
            &&& after.state == SchedulerState::Active
        },
    decreases run.len(),
{
    if run.len() > 0 {
        let init = run.drop_last();
        assert(run.last() == run[run.len() - 1]);
        assert forall|i: int| 0 <= i < init.len() implies (#[trigger] init[i]).latest_interval
            is None by {
            assert(init[i] == run[i]);
        }
        lemma_updates_without_interval_keep_period(s, status, init, threshold_ppm);
        if s.state != SchedulerState::ShuttingDown && (forall|i: int|
            0 <= i < run.len() ==> (#[trigger] run[i]).bpm > 0) {
            assert forall|i: int| 0 <= i < init.len() implies (#[trigger] init[i]).bpm > 0 by {
                assert(init[i] == run[i]);
            }
            lemma_session_goes_on(s, status, init, threshold_ppm);
        }
    }
}

/// Only the end of the session ends it: no run of updates does.
proof fn lemma_session_goes_on(
    s: SchedulerView,
    status: StatusView,
    run: Seq<StatusUpdate>,
    threshold_ppm: u32,
)
    requires
        s.state != SchedulerState::ShuttingDown,
    ensures
        after_updates(s, status, run, threshold_ppm).0.state != SchedulerState::ShuttingDown,
    decreases run.len(),
{
    if run.len() > 0 {
        lemma_session_goes_on(s, status, run.drop_last(), threshold_ppm);
    }
}

/// Where disconnections are hidden, a status without heartbeat sends
/// nothing and leaves the status in hand as it was.
pub proof fn lemma_hidden_disconnect_is_dropped(s: SchedulerView, data: StatusView)
    requires
        coherent(s),
        s.hide_disconnections,
        data.heart_rate_bpm == 0,
    ensures
        bundle_on_status(s, data) is None,
        after_status(s, data).hr_status == s.hr_status,
        s.hr_status.heart_rate_bpm > 0 && s.state != SchedulerState::ShuttingDown
            ==> after_status(s, data).state == SchedulerState::Mimicking,
{
}

/// Where disconnections are hidden, no bundle that a status or the mimic
/// timer brings forth says that the heartbeat is gone.
pub proof fn lemma_hidden_disconnect_never_reported(s: SchedulerView, data: StatusView)
    requires
        coherent(s),
        s.hide_disconnections,
    ensures
        bundle_on_status(s, data) matches Some(b) ==> !reports_disconnected(b),
        bundle_on_mimic_tick(s) matches Some(b) ==> !reports_disconnected(b),
{
}

/// A heartbeat ends mimicry at once: the scheduler is active, the status is
/// sent as it came, and the mimic timer has nothing more to send.
pub proof fn lemma_heartbeat_cancels_mimicry(s: SchedulerView, data: StatusView)
    requires
        s.state == SchedulerState::Mimicking,
        data.heart_rate_bpm > 0,
    ensures
        after_status(s, data).state == SchedulerState::Active,
        after_status(s, data).hr_status == data,
        bundle_on_status(s, data) == Some(bpm_bundle(data, s.addresses)),
        bundle_on_mimic_tick(after_status(s, data)) is None,
{
}

} // verus!
