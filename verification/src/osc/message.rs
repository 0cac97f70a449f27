//! What goes out: the bundle that reports a status, and the packets that
//! switch the beat parameters.

use vstd::prelude::*;
use vstd::utf8::encode_utf8;

use super::address::{AddressesView, OSCAddresses};
use crate::heart_rate::{HeartRateStatus, RrInterval, StatusView};

verus! {

/// The one argument of an outgoing message.
#[derive(Clone, Copy, Debug, PartialEq, Eq, Structural)]
pub enum OscArg {
    /// A 32-bit integer.
    Int(i32),
    /// A heart rate that goes out as a 32-bit float: the rate is mapped
    /// linearly from 0..=255 onto -1..=1, so `Scaled(bpm)` stands for
    /// `bpm / 255 * 2 - 1`.
    Scaled(u16),
    /// A truth value.
    Bool(bool),
}

/// One outgoing message: a parameter's address and its value.
#[derive(Debug, Clone, PartialEq)]
pub struct OscMessage {
    pub addr: String,
    pub arg: OscArg,
}

/// A message as mathematical values.
pub struct MessageView {
    pub addr: Seq<char>,
    pub arg: OscArg,
}

impl View for OscMessage {
    type V = MessageView;

    open spec fn view(&self) -> MessageView {
        MessageView { addr: self.addr@, arg: self.arg }
    }
}

/// Messages that go out together as one packet, to be applied at once.
#[derive(Debug, Clone, PartialEq)]
pub struct OscBundle {
    pub content: Vec<OscMessage>,
}

impl View for OscBundle {
    type V = Seq<MessageView>;

    open spec fn view(&self) -> Seq<MessageView> {
        self.content@.map_values(|m: OscMessage| m@)
    }
}

/// The whole milliseconds of an interval as a 32-bit integer, the largest
/// such integer where the interval is longer than that.
pub open spec fn interval_millis(interval: RrInterval) -> i32 {
    let millis = interval.nanos / 1_000_000;
    if millis > i32::MAX {
        i32::MAX
    } else {
        millis as i32
    }
}

/// The newest interval of a status in milliseconds; zero where there is no
/// heartbeat or no interval.
pub open spec fn latest_rr_millis(status: StatusView) -> i32 {
    if status.heart_rate_bpm == 0 || status.rr_intervals.len() == 0 {
        0
    } else {
        interval_millis(status.rr_intervals.last())
    }
}

/// The bundle that reports a status: the newest interval in milliseconds,
/// the heart rate as an integer and as a scaled float, and whether a
/// heartbeat is there at all.
pub open spec fn bpm_bundle(status: StatusView, addresses: AddressesView) -> Seq<MessageView> {
    seq![
        MessageView { addr: addresses.latest_rr, arg: OscArg::Int(latest_rr_millis(status)) },
        MessageView { addr: addresses.int_hr, arg: OscArg::Int(status.heart_rate_bpm as i32) },
        MessageView { addr: addresses.float_hr, arg: OscArg::Scaled(status.heart_rate_bpm) },
        MessageView { addr: addresses.connected, arg: OscArg::Bool(status.heart_rate_bpm > 0) },
    ]
}

/// The newest interval of `status` in milliseconds, for the bundle.
fn latest_rr_int(status: &HeartRateStatus) -> (millis: i32)
    ensures
        millis == latest_rr_millis(status@),
{
    let n: usize = status.rr_intervals.len();
    if status.heart_rate_bpm == 0 || n == 0 {
        return 0;
    }
    let millis: u128 = status.rr_intervals[n - 1].as_millis();
    if millis > 0x7fff_ffff {
        0x7fff_ffff
    } else {
        millis as i32
    }
}

/// Composes the bundle that reports `hr_status`.
pub fn form_bpm_bundle(hr_status: &HeartRateStatus, osc_addresses: &OSCAddresses) -> (bundle:
    OscBundle)
    ensures
        bundle@ == bpm_bundle(hr_status@, osc_addresses@),
{
    let rr_msg = OscMessage {
        addr: osc_addresses.latest_rr.clone(),
        arg: OscArg::Int(latest_rr_int(hr_status)),
    };
    let int_hr_msg = OscMessage {
        addr: osc_addresses.int_hr.clone(),
        arg: OscArg::Int(hr_status.heart_rate_bpm as i32),
    };
    let float_hr_msg = OscMessage {
        addr: osc_addresses.float_hr.clone(),
        arg: OscArg::Scaled(hr_status.heart_rate_bpm),
    };
    let connected_msg = OscMessage {
        addr: osc_addresses.connected.clone(),
        arg: OscArg::Bool(hr_status.heart_rate_bpm > 0),
    };
    let mut content: Vec<OscMessage> = Vec::new();
    content.push(rr_msg);
    content.push(int_hr_msg);
    content.push(float_hr_msg);
    content.push(connected_msg);
    let bundle = OscBundle { content };
    assert(bundle@ =~= bpm_bundle(hr_status@, osc_addresses@));
    bundle
}

/// `bytes` followed by zero bytes, one at least, up to the next length that
/// is a multiple of four: how the wire format ends a string.
pub open spec fn zero_padded(bytes: Seq<u8>) -> Seq<u8> {
    bytes + Seq::new((4 - bytes.len() % 4) as nat, |i: int| 0u8)
}

/// The type tag of a truth value: the letter T or the letter F.
pub open spec fn bool_tag(value: bool) -> u8 {
    if value {
        0x54
    } else {
        0x46
    }
}

/// The packet of one message that carries a single truth value: the padded
/// address, then the padded type tags, a comma and the value's letter. A
/// truth value has no argument bytes.
pub open spec fn bool_message_bytes(address: Seq<char>, value: bool) -> Seq<u8> {
    zero_padded(encode_utf8(address)) + zero_padded(seq![0x2cu8, bool_tag(value)])
}

/// Encodes a message with one truth value, by `rosc::encoder::encode`.
///
/// The encoder writes the address as a padded string, then a comma and one
/// letter for the value, padded likewise, and nothing for the value itself.
/// Into a vector it cannot fail, so its result is taken out as it is.
#[verifier::external_body]
fn encode_bool_message(address: &str, value: bool) -> (packet: Vec<u8>)
    ensures
        packet@ == bool_message_bytes(address@, value),
{
    let message = rosc::OscMessage {
        addr: address.to_owned(),
        args: vec![rosc::OscType::Bool(value)],
    };
    rosc::encoder::encode(&rosc::OscPacket::Message(message)).unwrap()
}

/// The packet that sets the beat parameter at `address` to `beat`. Its length
/// is a multiple of four, as the wire format asks of every packet.
pub fn beat_param_packet(beat: bool, address: &String) -> (packet: Vec<u8>)
    ensures
        packet@ == bool_message_bytes(address@, beat),
        packet@.len() == encode_utf8(address@).len() + (4 - encode_utf8(address@).len() % 4) + 4,
        packet@.len() % 4 == 0,
{
    encode_bool_message(address.as_str(), beat)
}

} // verus!
