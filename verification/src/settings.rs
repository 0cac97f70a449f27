//! The settings that the rest of the library reads.

use vstd::prelude::*;

verus! {

/// Where heart-rate figures are written besides the network.
#[derive(Debug, Clone, PartialEq)]
pub struct MiscSettings {
    pub write_bpm_to_file: bool,
    pub write_bpm_file_path: String,
    pub log_sessions_to_csv: bool,
    pub log_sessions_csv_path: String,
}

/// The sensor that was last paired.
#[derive(Debug, Clone, PartialEq)]
pub struct BLESettings {
    pub never_ask_to_save: bool,
    pub saved_address: String,
    pub saved_name: String,
}

/// Where the outgoing messages go and how their parameters are named.
#[derive(Debug, Clone, PartialEq)]
pub struct OSCSettings {
    pub host_ip: String,
    pub target_ip: String,
    pub port: u16,
    /// How long the beat pulse stays high, in milliseconds.
    pub pulse_length_ms: u16,
    pub only_positive_floathr: bool,
    /// Keep showing the last heart rate while the sensor is away.
    pub hide_disconnections_pre: bool,
    /// What every parameter's address starts with.
    pub address_prefix: String,
    pub param_hrm_connected: String,
    pub param_beat_toggle: String,
    pub param_beat_pulse: String,
    pub param_bpm_int: String,
    pub param_bpm_float: String,
    pub param_latest_rr_int: String,
}

/// Where the text feed is listened for.
#[derive(Debug, Clone, PartialEq)]
pub struct WebSocketSettings {
    pub port: u16,
}

/// Which charts the terminal display draws.
#[derive(Debug, Clone, PartialEq)]
pub struct TuiSettings {
    pub chart_bpm_enabled: bool,
    pub chart_rr_enabled: bool,
    /// Draw both charts in one.
    pub charts_combine: bool,
}

/// All settings.
#[derive(Debug, Clone, PartialEq)]
pub struct Settings {
    pub osc: OSCSettings,
    pub ble: BLESettings,
    pub websocket: WebSocketSettings,
    pub tui: TuiSettings,
    pub misc: MiscSettings,
}

/// The name of the file that the settings are kept in.
pub const CONFIG_NAME: &'static str = "null_iron_heart.toml";

impl Settings {
    /// The settings as they are where nothing else is configured: messages
    /// go to port 9000 of this machine under `/avatar/parameters/`, the pulse
    /// is high for a tenth of a second, disconnections are shown, no sensor
    /// is saved, both charts are drawn in one, nothing is written to files.
    pub fn new() -> (s: Settings)
        ensures
            s.osc.host_ip@ == "0.0.0.0"@,
            s.osc.target_ip@ == "127.0.0.1"@,
            s.osc.port == 9000,
            s.osc.pulse_length_ms == 100,
            !s.osc.only_positive_floathr,
            !s.osc.hide_disconnections_pre,
            s.osc.address_prefix@ == "/avatar/parameters/"@,
            s.osc.param_hrm_connected@ == "isHRConnected"@,
            s.osc.param_beat_toggle@ == "HeartBeatToggle"@,
            s.osc.param_beat_pulse@ == "isHRBeat"@,
            s.osc.param_bpm_int@ == "HR"@,
            s.osc.param_bpm_float@ == "floatHR"@,
            s.osc.param_latest_rr_int@ == "RRInterval"@,
            !s.ble.never_ask_to_save,
            s.ble.saved_address@ == ""@,
            s.ble.saved_name@ == ""@,
            s.websocket.port == 5566,
            s.tui.chart_bpm_enabled,
            s.tui.chart_rr_enabled,
            s.tui.charts_combine,
            !s.misc.write_bpm_to_file,
            s.misc.write_bpm_file_path@ == "bpm.txt"@,
            !s.misc.log_sessions_to_csv,
            s.misc.log_sessions_csv_path@ == "session_logs"@,
    {
        Settings {
            osc: OSCSettings {
                host_ip: String::from_str("0.0.0.0"),
                target_ip: String::from_str("127.0.0.1"),
                port: 9000,
                pulse_length_ms: 100,
                only_positive_floathr: false,
                hide_disconnections_pre: false,
                address_prefix: String::from_str("/avatar/parameters/"),
                param_hrm_connected: String::from_str("isHRConnected"),
                param_beat_toggle: String::from_str("HeartBeatToggle"),
                param_beat_pulse: String::from_str("isHRBeat"),
                param_bpm_int: String::from_str("HR"),
                param_bpm_float: String::from_str("floatHR"),
                param_latest_rr_int: String::from_str("RRInterval"),
            },
            ble: BLESettings {
                never_ask_to_save: false,
                saved_address: String::from_str(""),
                saved_name: String::from_str(""),
            },
            websocket: WebSocketSettings { port: 5566 },
            tui: TuiSettings {
                chart_bpm_enabled: true,
                chart_rr_enabled: true,
                charts_combine: true,
            },
            misc: MiscSettings {
                write_bpm_to_file: false,
                write_bpm_file_path: String::from_str("bpm.txt"),
                log_sessions_to_csv: false,
                log_sessions_csv_path: String::from_str("session_logs"),
            },
        }
    }
}

} // verus!
