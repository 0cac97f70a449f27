use iron_heart::heart_rate::websocket::{AppUpdate, Incoming, JSONHeartRate, WebsocketActor};
use iron_heart::heart_rate::{BatteryLevel, HeartRateStatus, RrInterval};
use iron_heart::osc::{
    beat_param_packet, collapse, form_bpm_bundle, format_address, mimic_hr_activity, rr_from_bpm,
    EmissionScheduler, OSCAddresses, OscArg, OscBundle, OscMessage, SchedulerState,
};
use iron_heart::settings::{OSCSettings, Settings};

fn settings_with_prefix(prefix: &str) -> OSCSettings {
    let mut osc = Settings::new().osc;
    osc.address_prefix = prefix.to_string();
    osc
}

fn hiding_settings() -> OSCSettings {
    let mut osc = Settings::new().osc;
    osc.hide_disconnections_pre = true;
    osc
}

fn status(bpm: u16, intervals: Vec<RrInterval>) -> HeartRateStatus {
    HeartRateStatus {
        heart_rate_bpm: bpm,
        rr_intervals: intervals,
        battery_level: BatteryLevel::Unknown,
        twitch_up: false,
        twitch_down: false,
    }
}

fn message(addr: &str, arg: OscArg) -> OscMessage {
    OscMessage { addr: addr.to_string(), arg }
}

fn bundle_of(bpm: u16, rr_millis: i32) -> OscBundle {
    OscBundle {
        content: vec![
            message("/avatar/parameters/RRInterval", OscArg::Int(rr_millis)),
            message("/avatar/parameters/HR", OscArg::Int(bpm as i32)),
            message("/avatar/parameters/floatHR", OscArg::Scaled(bpm)),
            message("/avatar/parameters/isHRConnected", OscArg::Bool(bpm > 0)),
        ],
    }
}

fn connected_flag(bundle: &OscBundle) -> Vec<bool> {
    bundle
        .content
        .iter()
        .filter_map(|m| match m.arg {
            OscArg::Bool(b) => Some(b),
            _ => None,
        })
        .collect()
}

fn decoded(packet: &[u8]) -> rosc::OscPacket {
    let (rest, packet) = rosc::decoder::decode_udp(packet).unwrap();
    assert!(rest.is_empty());
    packet
}

fn bool_packet(addr: &str, value: bool) -> rosc::OscPacket {
    rosc::OscPacket::Message(rosc::OscMessage {
        addr: addr.to_string(),
        args: vec![rosc::OscType::Bool(value)],
    })
}

#[test]
fn address_joins_prefix_and_parameter() {
    assert_eq!(format_address(&settings_with_prefix("/avatar/parameters"), "HR"), "/avatar/parameters/HR");
}

#[test]
fn address_collapses_the_doubled_separator() {
    assert_eq!(format_address(&settings_with_prefix("/avatar/parameters/"), "HR"), "/avatar/parameters/HR");
    assert_eq!(format_address(&settings_with_prefix("/"), "HR"), "/HR");
    assert_eq!(format_address(&settings_with_prefix("/a/"), "/b"), "/a/b");
}

#[test]
fn address_collapses_every_run_of_separators() {
    assert_eq!(format_address(&settings_with_prefix("//a///b//"), "//c//d"), "/a/b/c/d");
    assert_eq!(format_address(&settings_with_prefix(""), ""), "/");
    assert_eq!(format_address(&settings_with_prefix(""), "HR"), "/HR");
    assert_eq!(format_address(&settings_with_prefix("/a"), ""), "/a/");
}

#[test]
fn address_keeps_other_characters() {
    assert_eq!(format_address(&settings_with_prefix("/части/"), "/心拍"), "/части/心拍");
}

#[test]
fn collapse_changes_only_runs_of_separators() {
    assert_eq!(collapse(""), "");
    assert_eq!(collapse("/"), "/");
    assert_eq!(collapse("////"), "/");
    assert_eq!(collapse("a/b"), "a/b");
    assert_eq!(collapse("a//b///c"), "a/b/c");
    assert_eq!(collapse(&collapse("//a//b//")), collapse("//a//b//"));
}

#[test]
fn addresses_are_formed_for_every_parameter() {
    let addresses = OSCAddresses::new(&Settings::new().osc);
    assert_eq!(
        addresses,
        OSCAddresses {
            beat_toggle: "/avatar/parameters/HeartBeatToggle".to_string(),
            beat_pulse: "/avatar/parameters/isHRBeat".to_string(),
            int_hr: "/avatar/parameters/HR".to_string(),
            float_hr: "/avatar/parameters/floatHR".to_string(),
            connected: "/avatar/parameters/isHRConnected".to_string(),
            latest_rr: "/avatar/parameters/RRInterval".to_string(),
        }
    );
}

#[test]
fn bundle_reports_a_status() {
    let addresses = OSCAddresses::new(&Settings::new().osc);
    let bundle = form_bpm_bundle(&status(70, vec![RrInterval::from_nanos(857_999_999)]), &addresses);
    assert_eq!(bundle, bundle_of(70, 857));
}

#[test]
fn bundle_without_interval_reports_zero() {
    let addresses = OSCAddresses::new(&Settings::new().osc);
    assert_eq!(form_bpm_bundle(&status(70, Vec::new()), &addresses), bundle_of(70, 0));
}

#[test]
fn bundle_without_heartbeat_reports_zero_and_disconnected() {
    let addresses = OSCAddresses::new(&Settings::new().osc);
    let bundle = form_bpm_bundle(&status(0, vec![RrInterval::from_millis(900)]), &addresses);
    assert_eq!(bundle, bundle_of(0, 0));
    assert_eq!(connected_flag(&bundle), vec![false]);
}

#[test]
fn bundle_takes_the_newest_interval_and_stops_at_the_largest_integer() {
    let addresses = OSCAddresses::new(&Settings::new().osc);
    let intervals = vec![RrInterval::from_millis(1), RrInterval::from_millis(2_147_483_647)];
    assert_eq!(form_bpm_bundle(&status(1, intervals), &addresses), bundle_of(1, i32::MAX));
    let intervals = vec![RrInterval::from_millis(1), RrInterval::from_millis(u64::MAX)];
    assert_eq!(form_bpm_bundle(&status(1, intervals), &addresses), bundle_of(1, i32::MAX));
    assert_eq!(form_bpm_bundle(&status(u16::MAX, Vec::new()), &addresses), bundle_of(u16::MAX, 0));
}

#[test]
fn beat_packet_is_a_padded_address_and_a_type_tag() {
    assert_eq!(beat_param_packet(true, &"/a".to_string()), b"/a\0\0,T\0\0");
    assert_eq!(beat_param_packet(false, &"/a".to_string()), b"/a\0\0,F\0\0");
    assert_eq!(beat_param_packet(true, &"/abc".to_string()), b"/abc\0\0\0\0,T\0\0");
    assert_eq!(beat_param_packet(false, &"".to_string()), b"\0\0\0\0,F\0\0");
    assert_eq!(beat_param_packet(true, &"/é".to_string()), b"/\xc3\xa9\0,T\0\0");
}

#[test]
fn beat_packet_decodes_to_its_message() {
    let address = "/avatar/parameters/isHRBeat".to_string();
    for beat in [true, false] {
        let packet = beat_param_packet(beat, &address);
        assert_eq!(packet.len() % 4, 0);
        assert_eq!(decoded(&packet), bool_packet(&address, beat));
    }
}

#[test]
fn heart_rate_implies_an_interval() {
    assert_eq!(rr_from_bpm(60), RrInterval::from_millis(1000));
    assert_eq!(rr_from_bpm(120), RrInterval::from_millis(500));
    assert_eq!(rr_from_bpm(70), RrInterval::from_nanos(857_142_857));
    assert_eq!(rr_from_bpm(1), RrInterval::from_millis(60_000));
    assert_eq!(rr_from_bpm(u16::MAX), RrInterval::from_nanos(915_541));
}

#[test]
fn mimicked_status_is_the_last_known_one() {
    let last = status(72, vec![RrInterval::from_millis(833)]);
    assert_eq!(mimic_hr_activity(&last), last);
}

#[test]
fn scheduler_starts_idle_with_a_period_of_one_second() {
    let scheduler = EmissionScheduler::new(&Settings::new().osc);
    assert_eq!(scheduler.state(), SchedulerState::Idle);
    assert_eq!(scheduler.latest_rr(), RrInterval::from_millis(1000));
    assert_eq!(scheduler.pulse_length(), RrInterval::from_millis(100));
    assert!(!scheduler.uses_real_rr());
    assert_eq!(*scheduler.hr_status(), HeartRateStatus::default());
}

#[test]
fn reset_packets_report_nothing_known() {
    let scheduler = EmissionScheduler::new(&Settings::new().osc);
    let packets = scheduler.reset_packets();
    assert_eq!(packets.bundle, bundle_of(0, 0));
    assert_eq!(decoded(&packets.beat_toggle), bool_packet("/avatar/parameters/HeartBeatToggle", false));
    assert_eq!(decoded(&packets.beat_pulse), bool_packet("/avatar/parameters/isHRBeat", false));
}

#[test]
fn first_heartbeat_activates_and_is_sent() {
    let mut scheduler = EmissionScheduler::new(&Settings::new().osc);
    let bundle = scheduler.on_status(status(75, Vec::new()));
    assert_eq!(bundle, Some(bundle_of(75, 0)));
    assert_eq!(scheduler.state(), SchedulerState::Active);
    assert_eq!(scheduler.latest_rr(), RrInterval::from_millis(800));
    assert!(!scheduler.uses_real_rr());
    assert_eq!(scheduler.hr_status().heart_rate_bpm, 75);
}

#[test]
fn measured_interval_sets_the_period() {
    let mut scheduler = EmissionScheduler::new(&Settings::new().osc);
    let intervals = vec![RrInterval::from_millis(700), RrInterval::from_millis(810)];
    assert_eq!(scheduler.on_status(status(75, intervals)), Some(bundle_of(75, 810)));
    assert_eq!(scheduler.latest_rr(), RrInterval::from_millis(810));
    assert!(scheduler.uses_real_rr());
}

#[test]
fn period_follows_heart_rate_until_an_interval_is_measured() {
    let mut scheduler = EmissionScheduler::new(&Settings::new().osc);
    scheduler.on_status(status(60, Vec::new()));
    assert_eq!(scheduler.latest_rr(), RrInterval::from_millis(1000));
    scheduler.on_status(status(120, Vec::new()));
    assert_eq!(scheduler.latest_rr(), RrInterval::from_millis(500));
    scheduler.on_status(status(100, vec![RrInterval::from_millis(610)]));
    assert_eq!(scheduler.latest_rr(), RrInterval::from_millis(610));
    scheduler.on_status(status(120, Vec::new()));
    assert_eq!(scheduler.latest_rr(), RrInterval::from_millis(610));
    scheduler.on_status(status(150, Vec::new()));
    assert_eq!(scheduler.latest_rr(), RrInterval::from_millis(610));
    assert!(scheduler.uses_real_rr());
}

#[test]
fn text_feed_without_interval_keeps_the_measured_period() {
    let mut actor = WebsocketActor::build(100_000);
    let mut scheduler = EmissionScheduler::new(&Settings::new().osc);
    let records = [
        JSONHeartRate { bpm: 60, latest_rr_ms: Some(990), battery: None },
        JSONHeartRate { bpm: 70, latest_rr_ms: None, battery: None },
        JSONHeartRate { bpm: 80, latest_rr_ms: None, battery: None },
        JSONHeartRate { bpm: 90, latest_rr_ms: None, battery: None },
    ];
    for record in records {
        let (update, keep) =
            actor.handle_ws_message(Incoming::Text { raw: String::new(), decoded: Some(record) });
        assert!(keep);
        match update {
            AppUpdate::HeartRateStatus(status) => {
                assert_eq!(status.heart_rate_bpm, record.bpm);
                assert_eq!(status.rr_intervals, vec![RrInterval::from_millis(990)]);
                assert_eq!(scheduler.on_status(status), Some(bundle_of(record.bpm, 990)));
            }
            AppUpdate::Error(popup) => panic!("unexpected notice: {:?}", popup),
        }
        assert!(scheduler.uses_real_rr());
        assert_eq!(scheduler.latest_rr(), RrInterval::from_millis(990));
    }
}

#[test]
fn shown_disconnect_is_sent_and_idles() {
    let mut scheduler = EmissionScheduler::new(&Settings::new().osc);
    scheduler.on_status(status(75, vec![RrInterval::from_millis(800)]));
    let bundle = scheduler.on_status(status(0, Vec::new()));
    assert_eq!(bundle, Some(bundle_of(0, 0)));
    assert_eq!(scheduler.state(), SchedulerState::Idle);
    assert_eq!(scheduler.on_beat_tick(), None);
    assert_eq!(scheduler.on_mimic_tick(), None);
}

#[test]
fn hidden_disconnect_is_never_reported() {
    let mut scheduler = EmissionScheduler::new(&hiding_settings());
    scheduler.on_status(status(75, vec![RrInterval::from_millis(800)]));
    assert_eq!(scheduler.on_mimic_tick(), None);
    for _ in 0..3 {
        assert_eq!(scheduler.on_status(status(0, Vec::new())), None);
        assert_eq!(scheduler.state(), SchedulerState::Mimicking);
        assert_eq!(scheduler.hr_status().heart_rate_bpm, 75);
        let bundle = scheduler.on_mimic_tick().unwrap();
        assert_eq!(bundle, bundle_of(75, 800));
        assert_eq!(connected_flag(&bundle), vec![true]);
        assert!(scheduler.on_beat_tick().is_some());
    }
}

#[test]
fn heartbeat_cancels_mimicry() {
    let mut scheduler = EmissionScheduler::new(&hiding_settings());
    scheduler.on_status(status(75, vec![RrInterval::from_millis(800)]));
    scheduler.on_status(status(0, Vec::new()));
    assert_eq!(scheduler.state(), SchedulerState::Mimicking);
    let bundle = scheduler.on_status(status(64, vec![RrInterval::from_millis(940)]));
    assert_eq!(bundle, Some(bundle_of(64, 940)));
    assert_eq!(scheduler.state(), SchedulerState::Active);
    assert_eq!(scheduler.on_mimic_tick(), None);
}

#[test]
fn hidden_disconnect_before_any_heartbeat_stays_idle() {
    let mut scheduler = EmissionScheduler::new(&hiding_settings());
    assert_eq!(scheduler.on_status(status(0, Vec::new())), None);
    assert_eq!(scheduler.state(), SchedulerState::Idle);
    assert_eq!(scheduler.on_mimic_tick(), None);
    assert_eq!(scheduler.on_beat_tick(), None);
}

#[test]
fn beat_toggles_and_pulses() {
    let mut scheduler = EmissionScheduler::new(&Settings::new().osc);
    assert_eq!(scheduler.on_beat_tick(), None);
    scheduler.on_status(status(75, vec![RrInterval::from_millis(800)]));
    let first = scheduler.on_beat_tick().unwrap();
    assert_eq!(decoded(&first.toggle), bool_packet("/avatar/parameters/HeartBeatToggle", true));
    assert_eq!(decoded(&first.pulse_on), bool_packet("/avatar/parameters/isHRBeat", true));
    assert_eq!(first.hold, RrInterval::from_millis(100));
    assert_eq!(decoded(&first.pulse_off), bool_packet("/avatar/parameters/isHRBeat", false));
    assert_eq!(first.rearm, RrInterval::from_millis(700));
    let second = scheduler.on_beat_tick().unwrap();
    assert_eq!(decoded(&second.toggle), bool_packet("/avatar/parameters/HeartBeatToggle", false));
    let third = scheduler.on_beat_tick().unwrap();
    assert_eq!(third.toggle, first.toggle);
}

#[test]
fn rearm_follows_the_period_and_stops_at_zero() {
    let mut osc = Settings::new().osc;
    osc.pulse_length_ms = 300;
    let mut scheduler = EmissionScheduler::new(&osc);
    scheduler.on_status(status(75, vec![RrInterval::from_millis(800)]));
    assert_eq!(scheduler.on_beat_tick().unwrap().rearm, RrInterval::from_millis(500));
    scheduler.on_status(status(200, vec![RrInterval::from_millis(300)]));
    assert_eq!(scheduler.on_beat_tick().unwrap().rearm, RrInterval::from_nanos(0));
    scheduler.on_status(status(240, vec![RrInterval::from_millis(250)]));
    let beat = scheduler.on_beat_tick().unwrap();
    assert_eq!(beat.rearm, RrInterval::from_nanos(0));
    assert_eq!(beat.hold, RrInterval::from_millis(300));
}

#[test]
fn shutdown_resets_and_ends_the_session() {
    let mut scheduler = EmissionScheduler::new(&Settings::new().osc);
    scheduler.on_status(status(75, vec![RrInterval::from_millis(800)]));
    let packets = scheduler.on_shutdown();
    assert_eq!(packets.bundle, bundle_of(0, 0));
    assert_eq!(connected_flag(&packets.bundle), vec![false]);
    assert_eq!(decoded(&packets.beat_toggle), bool_packet("/avatar/parameters/HeartBeatToggle", false));
    assert_eq!(decoded(&packets.beat_pulse), bool_packet("/avatar/parameters/isHRBeat", false));
    assert_eq!(scheduler.state(), SchedulerState::ShuttingDown);
    assert_eq!(scheduler.on_status(status(80, Vec::new())), None);
    assert_eq!(scheduler.on_beat_tick(), None);
    assert_eq!(scheduler.on_mimic_tick(), None);
    assert_eq!(scheduler.state(), SchedulerState::ShuttingDown);
    assert_eq!(scheduler.hr_status().heart_rate_bpm, 75);
}
