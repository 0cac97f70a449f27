//! Heart-rate telemetry: decoding sensor frames, folding readings into one
//! status, detecting interval twitches and scheduling the outgoing pulse.

pub mod heart_rate;
pub mod osc;
pub mod settings;
pub mod widgets;
