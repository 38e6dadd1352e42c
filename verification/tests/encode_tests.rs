//! Encoder scenarios: the exact byte layout, the clamped speeds, the
//! photo-interval blocks, and the validating constructor.

use litchitool::error::LitchiError;
use litchitool::ingest::{ingest, FieldValue, Record};
use litchitool::mission::{
    Action, AltitudeMode, Coordinate, FinishAction, GimbalPitchMode, HeadingMode, LitchiMission,
    MissionConfig, PathMode, PhotoInterval, Waypoint, POI,
};

fn enc_field(text: &str) -> FieldValue {
    FieldValue {
        text: text.to_string(),
        f64_bits: text.parse::<f64>().ok().map(|v| v.to_bits()),
        f32_bits: text.parse::<f32>().ok().map(|v| v.to_bits()),
    }
}

fn enc_record(row: Vec<&str>) -> Record {
    Record { fields: row.iter().map(|t| enc_field(t)).collect(), poi_bearing: None }
}

/// A row with coordinate (10.0, 20.0), altitude 5.0, one TakePhoto in
/// slot 0, everything else empty or zero.
fn photo_row() -> Record {
    let mut row: Vec<&str> = vec!["10.0", "20.0", "5.0", "0", "0", "0", "0", "0"];
    row.push("1"); // slot 0: TakePhoto
    row.push("0");
    for _ in 1..15 {
        row.push("-1");
        row.push("0");
    }
    row.extend_from_slice(&["0", "0", "0", "0", "0", "0", "0", "0"]);
    enc_record(row)
}

#[test]
fn single_waypoint_layout_byte_for_byte() {
    let records = vec![photo_row()];
    let mission = ingest(&records).expect("row must ingest");
    assert_eq!(mission.waypoints().len(), 1);
    assert_eq!(mission.pois().len(), 0);
    let bytes = mission.to_binary();

    let mut expected: Vec<u8> = Vec::new();
    // Header.
    expected.extend_from_slice(&1818454125i32.to_be_bytes());
    expected.extend_from_slice(&2i32.to_be_bytes()); // heading mode: Manual
    expected.extend_from_slice(&1i32.to_be_bytes()); // finish action: Rth
    expected.extend_from_slice(&0i32.to_be_bytes()); // path mode: StraightLines
    expected.extend_from_slice(&8.0f32.to_be_bytes()); // cruising speed
    expected.extend_from_slice(&14.0f32.to_be_bytes()); // rc speed
    expected.extend_from_slice(&1i32.to_be_bytes()); // repetitions
    expected.extend_from_slice(&11i16.to_be_bytes()); // version
    expected.extend_from_slice(&[0u8; 10]); // padding
    // Waypoint count and block.
    expected.extend_from_slice(&1i32.to_be_bytes());
    expected.extend_from_slice(&5.0f32.to_be_bytes()); // altitude
    expected.extend_from_slice(&0i32.to_be_bytes()); // turn mode
    expected.extend_from_slice(&0.0f32.to_be_bytes()); // heading
    expected.extend_from_slice(&0.0f32.to_be_bytes()); // speed
    expected.extend_from_slice(&3i16.to_be_bytes()); // stay time
    expected.extend_from_slice(&0i16.to_be_bytes()); // max reach time
    expected.extend_from_slice(&10.0f64.to_be_bytes()); // latitude
    expected.extend_from_slice(&20.0f64.to_be_bytes()); // longitude
    expected.extend_from_slice(&0.0f32.to_be_bytes()); // curve size
    expected.extend_from_slice(&0i32.to_be_bytes()); // gimbal mode
    expected.extend_from_slice(&0i32.to_be_bytes()); // gimbal pitch angle
    expected.extend_from_slice(&1i32.to_be_bytes()); // action count
    expected.extend_from_slice(&1i32.to_be_bytes()); // repeat actions
    expected.extend_from_slice(&1i32.to_be_bytes()); // TakePhoto code
    expected.extend_from_slice(&0i32.to_be_bytes()); // parameter
    // Point-of-interest count; none follow.
    expected.extend_from_slice(&0i32.to_be_bytes());
    // Second waypoint pass.
    expected.extend_from_slice(&0i16.to_be_bytes()); // altitude mode
    expected.extend_from_slice(&5.0f32.to_be_bytes()); // altitude again
    expected.extend_from_slice(&(-1i32).to_be_bytes()); // no point of interest
    // Fixed protocol constants.
    expected.extend_from_slice(&8i32.to_be_bytes());
    expected.extend_from_slice(&8i32.to_be_bytes());
    expected.extend_from_slice(&0i32.to_be_bytes());
    // Global interval, then one block for the waypoint.
    expected.extend_from_slice(&(-1.0f32).to_be_bytes());
    expected.extend_from_slice(&(-1.0f32).to_be_bytes());
    expected.extend_from_slice(&(-1.0f32).to_be_bytes());
    expected.extend_from_slice(&(-1.0f32).to_be_bytes());

    assert_eq!(bytes, expected);
}

fn wp(lat: f64, lon: f64) -> Waypoint {
    Waypoint {
        coordinates: Coordinate(lat.to_bits(), lon.to_bits()),
        altitude: 30.0f32.to_bits(),
        heading: 0.0f32.to_bits(),
        curve_size: 0.0f32.to_bits(),
        rotation_dir: 0,
        gimbal_mode: GimbalPitchMode::Disabled,
        gimbal_pitch_angle: 0,
        altitude_mode: AltitudeMode::Absolute,
        speed: 5.0f32.to_bits(),
        poi_index: None,
        actions: Vec::new(),
        photo_interval: None,
        turn_mode: 0,
        stay_time: 3,
        max_reach_time: 0,
        repeat_actions: 1,
    }
}

fn config_with_speeds(cruising: f32, rc: f32) -> MissionConfig {
    MissionConfig {
        heading_mode: HeadingMode::Manual,
        finish_action: FinishAction::Rth,
        path_mode: PathMode::StraightLines,
        cruising_speed: cruising.to_bits(),
        rc_speed: rc.to_bits(),
        n_repeat: 1,
        version: 11,
        photo_interval: None,
    }
}

#[test]
fn extreme_speeds_are_clamped_into_range() {
    let mission =
        LitchiMission::new(vec![wp(1.0, 2.0)], Vec::new(), config_with_speeds(1000.0, 0.25))
            .expect("mission must validate");
    let bytes = mission.to_binary();
    assert_eq!(&bytes[16..20], &15.0f32.to_be_bytes());
    assert_eq!(&bytes[20..24], &2.0f32.to_be_bytes());

    let mission =
        LitchiMission::new(vec![wp(1.0, 2.0)], Vec::new(), config_with_speeds(-1000.0, 99.0))
            .expect("mission must validate");
    let bytes = mission.to_binary();
    assert_eq!(&bytes[16..20], &(-15.0f32).to_be_bytes());
    assert_eq!(&bytes[20..24], &15.0f32.to_be_bytes());
}

#[test]
fn in_range_speeds_are_kept_exactly() {
    let mission =
        LitchiMission::new(vec![wp(1.0, 2.0)], Vec::new(), config_with_speeds(-3.5, 9.25))
            .expect("mission must validate");
    let bytes = mission.to_binary();
    assert_eq!(&bytes[16..20], &(-3.5f32).to_be_bytes());
    assert_eq!(&bytes[20..24], &9.25f32.to_be_bytes());
}

#[test]
fn version_is_forced_to_eleven() {
    let mut config = config_with_speeds(8.0, 14.0);
    config.version = 3;
    let mission =
        LitchiMission::new(Vec::new(), Vec::new(), config).expect("mission must validate");
    let bytes = mission.to_binary();
    assert_eq!(&bytes[28..30], &11i16.to_be_bytes());
}

#[test]
fn stay_for_re_encodes_its_milliseconds() {
    let mut waypoint = wp(1.0, 2.0);
    waypoint.actions.push(Action::StayFor(2500));
    let mission = LitchiMission::new(vec![waypoint], Vec::new(), MissionConfig::default())
        .expect("mission must validate");
    let bytes = mission.to_binary();
    // Action count 1, repeat 1, then the (code, parameter) pair.
    assert_eq!(&bytes[92..96], &1i32.to_be_bytes());
    assert_eq!(&bytes[100..104], &0i32.to_be_bytes());
    assert_eq!(&bytes[104..108], &2500i32.to_be_bytes());
}

#[test]
fn global_distance_interval_block() {
    let row = {
        let mut row: Vec<&str> = vec!["10.0", "20.0", "5.0", "0", "0", "0", "0", "0"];
        for _ in 0..15 {
            row.push("-1");
            row.push("0");
        }
        row.extend_from_slice(&["0", "0", "0", "0", "0", "0", "0", "0"]);
        enc_record(row)
    };
    let records = vec![row];
    let mut mission = ingest(&records).expect("row must ingest");
    let mut config = mission.config().clone();
    config.photo_interval = Some(PhotoInterval::Distance(50.0f32.to_bits()));
    mission.set_config(config);
    let bytes = mission.to_binary();
    let n = bytes.len();
    // Global block: (-1.0, 50.0); per-waypoint block: (-1.0, -1.0).
    assert_eq!(&bytes[n - 16..n - 12], &(-1.0f32).to_be_bytes());
    assert_eq!(&bytes[n - 12..n - 8], &50.0f32.to_be_bytes());
    assert_eq!(&bytes[n - 8..n - 4], &(-1.0f32).to_be_bytes());
    assert_eq!(&bytes[n - 4..n], &(-1.0f32).to_be_bytes());
}

#[test]
fn time_interval_block_writes_seconds_first() {
    let mut config = config_with_speeds(8.0, 14.0);
    config.photo_interval = Some(PhotoInterval::Time(2.5f32.to_bits()));
    let mission =
        LitchiMission::new(Vec::new(), Vec::new(), config).expect("mission must validate");
    let bytes = mission.to_binary();
    let n = bytes.len();
    assert_eq!(&bytes[n - 8..n - 4], &2.5f32.to_be_bytes());
    assert_eq!(&bytes[n - 4..n], &(-1.0f32).to_be_bytes());
}

#[test]
fn poi_blocks_and_back_references() {
    let poi = POI {
        latitude: 11.0f64.to_bits(),
        longitude: 21.0f64.to_bits(),
        altitude: 7.5f32.to_bits(),
        altitude_mode: AltitudeMode::AboveGround,
    };
    let mut waypoint = wp(10.0, 20.0);
    waypoint.poi_index = Some(0);
    let mission = LitchiMission::new(vec![waypoint], vec![poi], MissionConfig::default())
        .expect("mission must validate");
    let bytes = mission.to_binary();
    // Header 40, count 4, one bare waypoint block of 56 bytes.
    assert_eq!(&bytes[44 + 56..48 + 56], &1i32.to_be_bytes()); // poi count
    assert_eq!(&bytes[104..112], &11.0f64.to_be_bytes());
    assert_eq!(&bytes[112..120], &21.0f64.to_be_bytes());
    assert_eq!(&bytes[120..124], &7.5f32.to_be_bytes());
    // Second waypoint pass: mode, altitude, reference 0.
    assert_eq!(&bytes[124..126], &0i16.to_be_bytes());
    assert_eq!(&bytes[130..134], &0i32.to_be_bytes());
    // Second poi pass: mode 1 and altitude.
    assert_eq!(&bytes[134..136], &1i16.to_be_bytes());
    assert_eq!(&bytes[136..140], &7.5f32.to_be_bytes());
}

#[test]
fn dangling_poi_reference_is_an_invalid_mission() {
    let mut waypoint = wp(1.0, 2.0);
    waypoint.poi_index = Some(0);
    let result = LitchiMission::new(vec![waypoint], Vec::new(), MissionConfig::default());
    assert!(matches!(result, Err(LitchiError::InvalidMission)));
}

#[test]
fn empty_mission_encodes_counts_and_constants() {
    let mission = LitchiMission::default();
    let bytes = mission.to_binary();
    assert_eq!(bytes.len(), 40 + 4 + 4 + 12 + 8);
    assert_eq!(&bytes[40..44], &0i32.to_be_bytes()); // waypoints
    assert_eq!(&bytes[44..48], &0i32.to_be_bytes()); // points of interest
    assert_eq!(&bytes[48..52], &8i32.to_be_bytes());
    assert_eq!(&bytes[52..56], &8i32.to_be_bytes());
    assert_eq!(&bytes[56..60], &0i32.to_be_bytes());
}

#[test]
fn nan_speed_passes_through_the_clamp() {
    // NaN compares false with both bounds, so the clamp leaves it standing.
    let nan = f32::NAN.to_bits();
    let mut config = config_with_speeds(8.0, 14.0);
    config.cruising_speed = nan;
    let mission =
        LitchiMission::new(Vec::new(), Vec::new(), config).expect("mission must validate");
    let bytes = mission.to_binary();
    assert_eq!(&bytes[16..20], &nan.to_be_bytes());
}
