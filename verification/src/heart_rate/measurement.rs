//! Decoding of the sensor's heart-rate measurement frame.
//!
//! A frame starts with a flags byte. Bit 0 selects a 16-bit beats-per-minute
//! field over an 8-bit one, bit 2 says that sensor contact is reported and
//! bit 1 then holds it, bit 3 says that an energy counter follows the
//! beats-per-minute field. Whatever is left is a run of little-endian 16-bit
//! interval readings in units of 1/1024 second, oldest first.

use vstd::prelude::*;

use super::RrInterval;

verus! {

/// One decoded sensor reading.
#[derive(Debug, PartialEq, Clone)]
pub struct HeartRateMeasurement {
    /// Beats per minute.
    pub bpm: u16,
    /// `None` where the sensor does not report contact, else whether it has it.
    pub is_sensor_contact_detected: Option<bool>,
    /// The running energy counter in joules, where the frame carries one. It
    /// may wrap over a very long session.
    pub energy_expended: Option<u16>,
    /// The beat-to-beat intervals of this notification, oldest first. A frame
    /// from a slow heart may carry none.
    pub rr_intervals: Vec<RrInterval>,
}

/// What a measurement holds, as mathematical values.
pub struct MeasurementView {
    pub bpm: u16,
    pub is_sensor_contact_detected: Option<bool>,
    pub energy_expended: Option<u16>,
    pub rr_intervals: Seq<RrInterval>,
}

impl View for HeartRateMeasurement {
    type V = MeasurementView;

    open spec fn view(&self) -> MeasurementView {
        MeasurementView {
            bpm: self.bpm,
            is_sensor_contact_detected: self.is_sensor_contact_detected,
            energy_expended: self.energy_expended,
            rr_intervals: self.rr_intervals@,
        }
    }
}

/// Interval readings count 1/1024 of a second.
pub const TICKS_PER_SEC: u64 = 1024;

/// Bit 0 of the flags: beats per minute take two bytes.
pub open spec fn is_16_bit(flags: u8) -> bool {
    flags & 1 == 1
}

/// Bit 2 of the flags: the sensor reports whether it has skin contact.
pub open spec fn has_sensor_detection(flags: u8) -> bool {
    flags & 0b100 == 0b100
}

/// Bit 1 of the flags: the contact reading itself.
pub open spec fn sensor_contact_bit(flags: u8) -> bool {
    flags & 0b10 == 0b10
}

/// Bit 3 of the flags: an energy counter is present.
pub open spec fn has_energy_expended(flags: u8) -> bool {
    flags & 0b1000 == 0b1000
}

/// The 16-bit value whose low byte is `lo` and whose high byte is `hi`.
pub open spec fn le_u16(lo: u8, hi: u8) -> u16 {
    (lo as int + 256 * (hi as int)) as u16
}

/// Where the energy counter starts, if the frame has one.
pub open spec fn energy_expended_index(flags: u8) -> int {
    if is_16_bit(flags) {
        3
    } else {
        2
    }
}

/// Where the interval readings start.
pub open spec fn rr_interval_index(flags: u8) -> int {
    energy_expended_index(flags) + if has_energy_expended(flags) {
        2int
    } else {
        0int
    }
}

/// A frame is long enough when it holds every field its flags announce.
pub open spec fn frame_is_complete(data: Seq<u8>) -> bool {
    data.len() >= 1 && data.len() >= rr_interval_index(data[0])
}

/// How many interval readings a frame carries. A trailing odd byte is no
/// reading.
pub open spec fn rr_interval_count(data: Seq<u8>) -> int {
    (data.len() - rr_interval_index(data[0])) / 2
}

/// `num / den` rounded to the nearest integer, a tie going to the even one.
pub open spec fn round_half_even(num: int, den: int) -> int {
    let q = num / den;
    let r = num % den;
    if 2 * r < den {
        q
    } else if 2 * r > den {
        q + 1
    } else if q % 2 == 0 {
        q
    } else {
        q + 1
    }
}

/// The nanoseconds that stand for `ticks` units of 1/1024 second.
pub open spec fn ticks_to_nanos(ticks: u16) -> int {
    round_half_even(ticks * 1_000_000_000, 1024)
}

/// The `i`-th interval reading of a frame.
pub open spec fn rr_interval_at(data: Seq<u8>, i: int) -> RrInterval {
    let at = rr_interval_index(data[0]) + 2 * i;
    RrInterval { nanos: ticks_to_nanos(le_u16(data[at], data[at + 1])) as u128 }
}

/// The measurement that a complete frame stands for.
pub open spec fn decode(data: Seq<u8>) -> MeasurementView {
    let flags = data[0];
    MeasurementView {
        bpm: if is_16_bit(flags) {
            le_u16(data[1], data[2])
        } else {
            data[1] as u16
        },
        is_sensor_contact_detected: if has_sensor_detection(flags) {
            Some(sensor_contact_bit(flags))
        } else {
            None
        },
        energy_expended: if has_energy_expended(flags) {
            let at = energy_expended_index(flags);
            Some(le_u16(data[at], data[at + 1]))
        } else {
            None
        },
        rr_intervals: Seq::new(rr_interval_count(data) as nat, |i: int| rr_interval_at(data, i)),
    }
}

/// The fields of a measurement are there exactly as the flags announce them:
/// sensor contact where bit 2 is set, and then as bit 1 says; the energy
/// counter where bit 3 is set; beats per minute from two bytes where bit 0
/// is set and from one byte otherwise.
pub proof fn lemma_fields_follow_flags(data: Seq<u8>)
    requires
        frame_is_complete(data),
    ensures
        decode(data).is_sensor_contact_detected is Some <==> has_sensor_detection(data[0]),
        decode(data).is_sensor_contact_detected matches Some(contact) ==> contact
            == sensor_contact_bit(data[0]),
        decode(data).energy_expended is Some <==> has_energy_expended(data[0]),
        is_16_bit(data[0]) ==> decode(data).bpm == le_u16(data[1], data[2]),
        !is_16_bit(data[0]) ==> decode(data).bpm == data[1],
        decode(data).rr_intervals.len() == rr_interval_count(data),
{
}

/// Joins two bytes, low one first, into a 16-bit value.
fn u16_from_le(lo: u8, hi: u8) -> (v: u16)
    ensures
        v == le_u16(lo, hi),
{
    let low: u16 = lo as u16;
    let high: u16 = hi as u16;
    high * 256 + low
}

/// Converts a reading in 1/1024 second to the nearest nanosecond, a tie going
/// to the even nanosecond.
pub fn interval_from_ticks(ticks: u16) -> (r: RrInterval)
    ensures
        r.nanos == ticks_to_nanos(ticks),
{
    let num: u64 = (ticks as u64) * 1_000_000_000;
    let q: u64 = num / TICKS_PER_SEC;
    let r: u64 = num % TICKS_PER_SEC;
    let nanos: u64 = if 2 * r < TICKS_PER_SEC {
        q
    } else if 2 * r > TICKS_PER_SEC {
        q + 1
    } else if q % 2 == 0 {
        q
    } else {
        q + 1
    };
    RrInterval { nanos: nanos as u128 }
}

/// Tells whether `data` holds every field that its flags byte announces.
pub fn is_complete_frame(data: &[u8]) -> (ok: bool)
    ensures
        ok == frame_is_complete(data@),
{
    if data.len() < 2 {
        return false;
    }
    let is_16_bit: bool = data[0] & 1 == 1;
    let has_energy_expended: bool = data[0] & 0b1000 == 0b1000;
    let needed: usize = 2 + if has_energy_expended { 2usize } else { 0usize }
        + if is_16_bit { 1usize } else { 0usize };
    data.len() >= needed
}

/// Decodes one sensor frame.
///
/// The frame must be complete: the caller has checked its length against its
/// flags. The same bytes always give the same measurement.
pub fn parse_hrm(data: &[u8]) -> (m: HeartRateMeasurement)
    requires
        frame_is_complete(data@),
    ensures
        m@ == decode(data@),
        m.is_sensor_contact_detected.is_some() <==> has_sensor_detection(data@[0]),
        m.energy_expended.is_some() <==> has_energy_expended(data@[0]),
        m.bpm == if is_16_bit(data@[0]) {
            le_u16(data@[1], data@[2])
        } else {
            data@[1] as u16
        },
        m.rr_intervals@.len() == rr_interval_count(data@),
{
    let is_16_bit: bool = data[0] & 1 == 1;
    let has_sensor_detection: bool = data[0] & 0b100 == 0b100;
    let has_energy_expended: bool = data[0] & 0b1000 == 0b1000;
    let energy_expended_index: usize = 2 + if is_16_bit { 1usize } else { 0usize };
    let rr_start: usize = 2 + if has_energy_expended { 2usize } else { 0usize }
        + if is_16_bit { 1usize } else { 0usize };
    let bpm: u16 = if is_16_bit {
        u16_from_le(data[1], data[2])
    } else {
        data[1] as u16
    };
    let is_sensor_contact_detected: Option<bool> = if has_sensor_detection {
        Some(data[0] & 0b10 == 0b10)
    } else {
        None
    };
    let energy_expended: Option<u16> = if has_energy_expended {
        Some(u16_from_le(data[energy_expended_index], data[energy_expended_index + 1]))
    } else {
        None
    };
    let rr_count: usize = (data.len() - rr_start) / 2;
    let mut rr_intervals: Vec<RrInterval> = Vec::with_capacity(rr_count);
    let mut i: usize = 0;
    while i < rr_count
        invariant
            frame_is_complete(data@),
            rr_start == rr_interval_index(data@[0]),
            rr_count == rr_interval_count(data@),
            rr_start + 2 * rr_count <= data@.len() <= usize::MAX,
            i <= rr_count,
            rr_intervals@.len() == i,
            forall|k: int| 0 <= k < i ==> rr_intervals@[k] == rr_interval_at(data@, k),
        decreases rr_count - i,
    {
        let at: usize = rr_start + 2 * i;
        let ticks: u16 = u16_from_le(data[at], data[at + 1]);
        rr_intervals.push(interval_from_ticks(ticks));
        i = i + 1;
    }
    assert(rr_intervals@ =~= decode(data@).rr_intervals);
    HeartRateMeasurement { bpm, is_sensor_contact_detected, energy_expended, rr_intervals }
}

} // verus!
