//! The outgoing side: parameter addresses, the status bundle and the pulse
//! schedule.

pub mod address;
pub mod message;
pub mod scheduler;

pub use address::{collapse, format_address, OSCAddresses};
pub use message::{beat_param_packet, form_bpm_bundle, OscArg, OscBundle, OscMessage};
pub use scheduler::{
    mimic_hr_activity, rr_from_bpm, BeatPulse, EmissionScheduler, ResetPackets, SchedulerState,
    INITIAL_RR_MILLIS, MIMIC_JITTER, MIMIC_UPDATE_SECS,
};
