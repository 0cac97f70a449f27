use iron_heart::settings::{
    BLESettings, MiscSettings, OSCSettings, Settings, TuiSettings, WebSocketSettings, CONFIG_NAME,
};
use iron_heart::widgets::heart_rate_display::{
    chart_layout, ChartArea, ChartPlacement, ChartType, CHART_BPM_MAX_ELEMENTS,
    CHART_RR_MAX_ELEMENTS,
};

#[test]
fn settings_start_from_their_defaults() {
    assert_eq!(
        Settings::new(),
        Settings {
            osc: OSCSettings {
                host_ip: "0.0.0.0".to_string(),
                target_ip: "127.0.0.1".to_string(),
                port: 9000,
                pulse_length_ms: 100,
                only_positive_floathr: false,
                hide_disconnections_pre: false,
                address_prefix: "/avatar/parameters/".to_string(),
                param_hrm_connected: "isHRConnected".to_string(),
                param_beat_toggle: "HeartBeatToggle".to_string(),
                param_beat_pulse: "isHRBeat".to_string(),
                param_bpm_int: "HR".to_string(),
                param_bpm_float: "floatHR".to_string(),
                param_latest_rr_int: "RRInterval".to_string(),
            },
            ble: BLESettings {
                never_ask_to_save: false,
                saved_address: String::new(),
                saved_name: String::new(),
            },
            websocket: WebSocketSettings { port: 5566 },
            tui: TuiSettings {
                chart_bpm_enabled: true,
                chart_rr_enabled: true,
                charts_combine: true,
            },
            misc: MiscSettings {
                write_bpm_to_file: false,
                write_bpm_file_path: "bpm.txt".to_string(),
                log_sessions_to_csv: false,
                log_sessions_csv_path: "session_logs".to_string(),
            },
        }
    );
    assert_eq!(CONFIG_NAME, "null_iron_heart.toml");
}

#[test]
fn charts_share_or_split_the_area() {
    let whole = |chart| ChartPlacement { chart, area: ChartArea::Whole };
    assert_eq!(chart_layout(true, true, true), vec![whole(ChartType::Combined)]);
    assert_eq!(
        chart_layout(true, true, false),
        vec![
            ChartPlacement { chart: ChartType::Bpm, area: ChartArea::Left },
            ChartPlacement { chart: ChartType::Rr, area: ChartArea::Right },
        ]
    );
    assert_eq!(chart_layout(true, false, false), vec![whole(ChartType::Bpm)]);
    assert_eq!(chart_layout(true, false, true), vec![whole(ChartType::Bpm)]);
    assert_eq!(chart_layout(false, true, false), vec![whole(ChartType::Rr)]);
    assert_eq!(chart_layout(false, true, true), vec![whole(ChartType::Rr)]);
    assert_eq!(chart_layout(false, false, false), Vec::new());
    assert_eq!(chart_layout(false, false, true), Vec::new());
    assert_eq!(CHART_BPM_MAX_ELEMENTS, 120);
    assert_eq!(CHART_RR_MAX_ELEMENTS, 120);
}
