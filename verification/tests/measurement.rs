use iron_heart::heart_rate::measurement::{
    interval_from_ticks, is_complete_frame, parse_hrm, HeartRateMeasurement,
};
use iron_heart::heart_rate::RrInterval;
use std::time::Duration;

#[test]
fn parse_hrm_16_bit_energy_expended_and_one_rr_intervals() {
    assert_eq!(
        HeartRateMeasurement {
            bpm: 70,
            is_sensor_contact_detected: None,
            energy_expended: Some(523),
            rr_intervals: vec!(RrInterval::from_nanos(
                Duration::from_secs_f32(266.0 / 1024.0).as_nanos()
            ))
        },
        parse_hrm(&[0b11001, 70, 0, 11, 2, 10, 1])
    );
}

#[test]
fn parse_hrm_16_bit_and_one_rr_intervals() {
    assert_eq!(
        HeartRateMeasurement {
            bpm: 70,
            is_sensor_contact_detected: None,
            energy_expended: None,
            rr_intervals: vec!(RrInterval::from_nanos(
                Duration::from_secs_f32(266.0 / 1024.0).as_nanos()
            ))
        },
        parse_hrm(&[0b10001, 70, 0, 10, 1])
    );
}

#[test]
fn parse_hrm_and_three_rr_intervals() {
    assert_eq!(
        HeartRateMeasurement {
            bpm: 70,
            is_sensor_contact_detected: None,
            energy_expended: None,
            rr_intervals: vec!(
                RrInterval::from_nanos(Duration::from_secs_f32(266.0 / 1024.0).as_nanos()),
                RrInterval::from_nanos(Duration::from_secs_f32(523.0 / 1024.0).as_nanos()),
                RrInterval::from_nanos(Duration::from_secs_f32(780.0 / 1024.0).as_nanos())
            )
        },
        parse_hrm(&[0b10000, 70, 10, 1, 11, 2, 12, 3])
    );
}

#[test]
fn parse_hrm_and_one_rr_intervals() {
    assert_eq!(
        HeartRateMeasurement {
            bpm: 70,
            is_sensor_contact_detected: None,
            energy_expended: None,
            rr_intervals: vec!(RrInterval::from_nanos(
                Duration::from_secs_f32(266.0 / 1024.0).as_nanos()
            ))
        },
        parse_hrm(&[0b10000, 70, 10, 1])
    );
}

#[test]
fn parse_hrm_16_bit_and_energy_expended() {
    assert_eq!(
        HeartRateMeasurement {
            bpm: 70,
            is_sensor_contact_detected: None,
            energy_expended: Some(266),
            rr_intervals: Vec::with_capacity(0),
        },
        parse_hrm(&[0b1001, 70, 0, 10, 1])
    );
}

#[test]
fn parse_hrm_and_energy_expended() {
    assert_eq!(
        HeartRateMeasurement {
            bpm: 70,
            is_sensor_contact_detected: None,
            energy_expended: Some(266),
            rr_intervals: Vec::with_capacity(0),
        },
        parse_hrm(&[0b1000, 70, 10, 1])
    );
}

#[test]
fn parse_hrm_without_contact() {
    assert_eq!(
        HeartRateMeasurement {
            bpm: 70,
            is_sensor_contact_detected: Some(false),
            energy_expended: None,
            rr_intervals: Vec::with_capacity(0),
        },
        parse_hrm(&[0b100, 70])
    );
}

#[test]
fn parse_hrm_with_contact() {
    assert_eq!(
        HeartRateMeasurement {
            bpm: 70,
            is_sensor_contact_detected: Some(true),
            energy_expended: None,
            rr_intervals: Vec::with_capacity(0),
        },
        parse_hrm(&[0b110, 70])
    );
}

#[test]
fn parse_hrm_16_bit_big_simple() {
    assert_eq!(
        HeartRateMeasurement {
            bpm: 266,
            is_sensor_contact_detected: None,
            energy_expended: None,
            rr_intervals: Vec::with_capacity(0),
        },
        parse_hrm(&[1, 10, 1])
    );
}

#[test]
fn parse_hrm_16_bit_simple() {
    assert_eq!(
        HeartRateMeasurement {
            bpm: 70,
            is_sensor_contact_detected: None,
            energy_expended: None,
            rr_intervals: Vec::with_capacity(0),
        },
        parse_hrm(&[1, 70, 0])
    );
}

#[test]
fn parse_hrm_simplest() {
    assert_eq!(
        HeartRateMeasurement {
            bpm: 70,
            is_sensor_contact_detected: None,
            energy_expended: None,
            rr_intervals: Vec::with_capacity(0),
        },
        parse_hrm(&[0, 70])
    );
}

#[test]
fn field_presence_follows_every_flag_combination() {
    for flags in 0u8..=255 {
        let frame = [flags, 70, 1, 10, 2, 20, 3];
        let m = parse_hrm(&frame);
        assert_eq!(m.is_sensor_contact_detected.is_some(), flags & 0b100 != 0);
        assert_eq!(m.energy_expended.is_some(), flags & 0b1000 != 0);
        if let Some(contact) = m.is_sensor_contact_detected {
            assert_eq!(contact, flags & 0b10 != 0);
        }
        let wide = flags & 1 != 0;
        assert_eq!(m.bpm, if wide { 326 } else { 70 });
        let start = 2 + usize::from(wide) + if flags & 0b1000 != 0 { 2 } else { 0 };
        assert_eq!(m.rr_intervals.len(), (frame.len() - start) / 2);
        assert_eq!(m, parse_hrm(&frame));
    }
}

#[test]
fn energy_follows_a_16_bit_heart_rate() {
    let m = parse_hrm(&[0b1001, 10, 1, 11, 2]);
    assert_eq!(m.bpm, 266);
    assert_eq!(m.energy_expended, Some(523));
    assert!(m.rr_intervals.is_empty());
}

#[test]
fn trailing_odd_byte_is_no_interval() {
    let m = parse_hrm(&[0b10000, 70, 10, 1, 11]);
    assert_eq!(m.rr_intervals, vec![RrInterval::from_nanos(259_765_625)]);
}

#[test]
fn intervals_are_exact_to_the_nanosecond() {
    assert_eq!(interval_from_ticks(0).nanos, 0);
    assert_eq!(interval_from_ticks(1024).nanos, 1_000_000_000);
    assert_eq!(interval_from_ticks(266).nanos, 259_765_625);
    assert_eq!(interval_from_ticks(512).nanos, 500_000_000);
    // 976_562.5 ns: the tie goes to the even nanosecond below.
    assert_eq!(interval_from_ticks(1).nanos, 976_562);
    // 2_929_687.5 ns: the tie goes to the even nanosecond above.
    assert_eq!(interval_from_ticks(3).nanos, 2_929_688);
    assert_eq!(interval_from_ticks(65535).nanos, 63_999_023_438);
}

#[test]
fn every_tick_count_matches_the_float_conversion() {
    for ticks in 0u16..=u16::MAX {
        let expected = Duration::from_secs_f32(ticks as f32 / 1024.0).as_nanos();
        assert_eq!(interval_from_ticks(ticks).nanos, expected, "ticks = {}", ticks);
        let [lo, hi] = ticks.to_le_bytes();
        let m = parse_hrm(&[0b10000, 70, lo, hi]);
        assert_eq!(m.rr_intervals, vec![RrInterval::from_nanos(expected)]);
    }
}

#[test]
fn frames_are_complete_when_every_announced_field_fits() {
    assert!(!is_complete_frame(&[]));
    assert!(!is_complete_frame(&[0]));
    assert!(is_complete_frame(&[0, 70]));
    assert!(!is_complete_frame(&[1, 70]));
    assert!(is_complete_frame(&[1, 70, 0]));
    assert!(!is_complete_frame(&[0b1000, 70, 10]));
    assert!(is_complete_frame(&[0b1000, 70, 10, 1]));
    assert!(!is_complete_frame(&[0b1001, 70, 0, 10]));
    assert!(is_complete_frame(&[0b1001, 70, 0, 10, 1]));
    assert!(is_complete_frame(&[0b10000, 70, 10]));
}
