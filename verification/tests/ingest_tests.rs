//! Ingestion scenarios: record shape, field parsing, action decoding,
//! photo intervals, point-of-interest deduplication and heading override.

use litchitool::error::LitchiError;
use litchitool::ingest::{ingest, poi_bearing_request, FieldValue, Record};
use litchitool::mission::{Action, AltitudeMode, GimbalPitchMode, PhotoInterval};

fn field(text: &str) -> FieldValue {
    FieldValue {
        text: text.to_string(),
        f64_bits: text.parse::<f64>().ok().map(|v| v.to_bits()),
        f32_bits: text.parse::<f32>().ok().map(|v| v.to_bits()),
    }
}

/// The great-circle initial bearing, as the row-source reader computes it
/// for the coordinates ingestion asks about.
fn bearing_bits(from: (f64, f64), to: (f64, f64)) -> u32 {
    let dlon = (to.1 - from.1).to_radians();
    let lat1 = from.0.to_radians();
    let lat2 = to.0.to_radians();
    let y = dlon.sin() * lat2.cos();
    let x = lat1.cos() * lat2.sin() - lat1.sin() * lat2.cos() * dlon.cos();
    (y.atan2(x).to_degrees() as f32).to_bits()
}

/// A well-formed 46-field row: coordinate (10.0, 20.0), altitude 5.0,
/// all action slots empty, no point of interest, no intervals.
fn base_row() -> Vec<String> {
    let mut row: Vec<String> = Vec::new();
    row.push("10.0".to_string()); // latitude
    row.push("20.0".to_string()); // longitude
    row.push("5.0".to_string()); // altitude
    row.push("90.0".to_string()); // heading
    row.push("0.0".to_string()); // curve size
    row.push("0".to_string()); // rotation direction
    row.push("0".to_string()); // gimbal mode
    row.push("0".to_string()); // gimbal pitch angle
    for _ in 0..15 {
        row.push("-1".to_string()); // action type: sentinel
        row.push("0".to_string()); // action parameter
    }
    row.push("0".to_string()); // altitude mode
    row.push("3.5".to_string()); // speed
    row.push("0".to_string()); // poi latitude
    row.push("0".to_string()); // poi longitude
    row.push("0".to_string()); // poi altitude
    row.push("0".to_string()); // poi altitude mode
    row.push("0".to_string()); // photo time interval
    row.push("0".to_string()); // photo distance interval
    row
}

fn record_of(row: Vec<String>) -> Record {
    let fields: Vec<FieldValue> = row.iter().map(|t| field(t)).collect();
    let mut record = Record { fields, poi_bearing: None };
    if let Some((from, to)) = poi_bearing_request(&record) {
        record.poi_bearing = Some(bearing_bits(
            (f64::from_bits(from.0), f64::from_bits(from.1)),
            (f64::from_bits(to.0), f64::from_bits(to.1)),
        ));
    }
    record
}

#[test]
fn single_row_without_poi() {
    let records = vec![record_of(base_row())];
    let mission = ingest(&records).expect("row must ingest");
    assert_eq!(mission.waypoints().len(), 1);
    assert_eq!(mission.pois().len(), 0);
    let wp = &mission.waypoints()[0];
    assert_eq!(wp.coordinates.0, 10.0f64.to_bits());
    assert_eq!(wp.coordinates.1, 20.0f64.to_bits());
    assert_eq!(wp.altitude, 5.0f32.to_bits());
    assert_eq!(wp.heading, 90.0f32.to_bits());
    assert_eq!(wp.speed, 3.5f32.to_bits());
    assert_eq!(wp.poi_index, None);
    assert_eq!(wp.actions.len(), 0);
    assert!(wp.photo_interval.is_none());
    assert!(matches!(wp.altitude_mode, AltitudeMode::Absolute));
    assert!(matches!(wp.gimbal_mode, GimbalPitchMode::Disabled));
    assert_eq!(wp.turn_mode, 0);
    assert_eq!(wp.stay_time, 3);
    assert_eq!(wp.max_reach_time, 0);
    assert_eq!(wp.repeat_actions, 1);
}

#[test]
fn wrong_record_length_is_a_format_error() {
    let mut row = base_row();
    row.pop();
    let records = vec![record_of(row)];
    let result = ingest(&records);
    assert!(matches!(result, Err(LitchiError::IncorrectRecordLength(45, 46))));
}

#[test]
fn wrong_length_wins_over_any_field_content() {
    // Garbage fields, but the width is checked first.
    let row: Vec<String> = (0..17).map(|_| "not-a-number".to_string()).collect();
    let records = vec![record_of(row)];
    let result = ingest(&records);
    assert!(matches!(result, Err(LitchiError::IncorrectRecordLength(17, 46))));
}

#[test]
fn malformed_float_field_is_a_parse_error() {
    let mut row = base_row();
    row[0] = "garbage".to_string();
    let records = vec![record_of(row)];
    assert!(matches!(ingest(&records), Err(LitchiError::ParseFloatError)));
}

#[test]
fn malformed_int_field_is_a_parse_error() {
    let mut row = base_row();
    row[5] = "1.5".to_string();
    let records = vec![record_of(row)];
    assert!(matches!(ingest(&records), Err(LitchiError::ParseIntError)));
}

#[test]
fn first_record_error_wins() {
    let mut bad_parse = base_row();
    bad_parse[0] = "garbage".to_string();
    let mut short = base_row();
    short.truncate(10);
    let records = vec![record_of(bad_parse), record_of(short)];
    assert!(matches!(ingest(&records), Err(LitchiError::ParseFloatError)));
}

#[test]
fn action_slots_decode_in_order() {
    let mut row = base_row();
    row[8] = "0".to_string(); // slot 0: StayFor
    row[9] = "1500".to_string();
    row[10] = "1".to_string(); // slot 1: TakePhoto
    row[12] = "-1".to_string(); // slot 2: empty
    row[14] = "4".to_string(); // slot 3: RotateAircraft
    row[15] = "-90".to_string();
    row[16] = "5".to_string(); // slot 4: TiltCamera
    row[17] = "30".to_string();
    row[18] = "2".to_string(); // slot 5: StartRecording
    row[20] = "3".to_string(); // slot 6: StopRecording
    let records = vec![record_of(row)];
    let mission = ingest(&records).expect("row must ingest");
    let actions = &mission.waypoints()[0].actions;
    assert_eq!(actions.len(), 6);
    assert!(matches!(actions[0], Action::StayFor(1500)));
    assert!(matches!(actions[1], Action::TakePhoto));
    assert!(matches!(actions[2], Action::RotateAircraft(-90)));
    assert!(matches!(actions[3], Action::TiltCamera(30)));
    assert!(matches!(actions[4], Action::StartRecording));
    assert!(matches!(actions[5], Action::StopRecording));
}

#[test]
fn unknown_action_type_is_rejected_with_the_code() {
    let mut row = base_row();
    row[8] = "7".to_string();
    let records = vec![record_of(row)];
    let result = ingest(&records);
    assert!(matches!(result, Err(LitchiError::InvalidActionType(7))));
}

#[test]
fn out_of_range_gimbal_mode_is_rejected_with_the_code() {
    let mut row = base_row();
    row[6] = "9".to_string();
    let records = vec![record_of(row)];
    assert!(matches!(ingest(&records), Err(LitchiError::TryFromPrimitiveError(9))));
}

#[test]
fn out_of_range_altitude_mode_is_rejected_with_the_code() {
    let mut row = base_row();
    row[38] = "5".to_string();
    let records = vec![record_of(row)];
    assert!(matches!(ingest(&records), Err(LitchiError::TryFromPrimitiveError(5))));
}

#[test]
fn time_interval_takes_precedence_over_distance() {
    let mut row = base_row();
    row[44] = "2.0".to_string();
    row[45] = "3.0".to_string();
    let records = vec![record_of(row)];
    let mission = ingest(&records).expect("row must ingest");
    match mission.waypoints()[0].photo_interval {
        Some(PhotoInterval::Time(bits)) => assert_eq!(bits, 2.0f32.to_bits()),
        ref other => panic!("expected a time interval, got {:?}", other),
    }
}

#[test]
fn distance_interval_used_when_time_not_positive() {
    let mut row = base_row();
    row[44] = "0.0".to_string();
    row[45] = "3.0".to_string();
    let records = vec![record_of(row)];
    let mission = ingest(&records).expect("row must ingest");
    match mission.waypoints()[0].photo_interval {
        Some(PhotoInterval::Distance(bits)) => assert_eq!(bits, 3.0f32.to_bits()),
        ref other => panic!("expected a distance interval, got {:?}", other),
    }
}

#[test]
fn negative_intervals_leave_no_interval() {
    let mut row = base_row();
    row[44] = "-2.0".to_string();
    row[45] = "-3.0".to_string();
    let records = vec![record_of(row)];
    let mission = ingest(&records).expect("row must ingest");
    assert!(mission.waypoints()[0].photo_interval.is_none());
}

#[test]
fn poi_with_any_zero_field_is_not_formed() {
    let mut row = base_row();
    row[40] = "1.0".to_string(); // poi latitude
    row[41] = "2.0".to_string(); // poi longitude
    row[42] = "0.0".to_string(); // poi altitude stays zero
    let records = vec![record_of(row)];
    let mission = ingest(&records).expect("row must ingest");
    assert_eq!(mission.pois().len(), 0);
    assert_eq!(mission.waypoints()[0].poi_index, None);
    // The heading parsed from the record stands.
    assert_eq!(mission.waypoints()[0].heading, 90.0f32.to_bits());
}

fn row_with_poi() -> Vec<String> {
    let mut row = base_row();
    row[40] = "11.0".to_string();
    row[41] = "21.0".to_string();
    row[42] = "7.5".to_string();
    row[43] = "1".to_string();
    row
}

#[test]
fn poi_overrides_heading_with_the_bearing() {
    let records = vec![record_of(row_with_poi())];
    let mission = ingest(&records).expect("row must ingest");
    assert_eq!(mission.pois().len(), 1);
    let poi = &mission.pois()[0];
    assert_eq!(poi.latitude, 11.0f64.to_bits());
    assert_eq!(poi.longitude, 21.0f64.to_bits());
    assert_eq!(poi.altitude, 7.5f32.to_bits());
    assert!(matches!(poi.altitude_mode, AltitudeMode::AboveGround));
    let wp = &mission.waypoints()[0];
    assert_eq!(wp.poi_index, Some(0));
    let expected = bearing_bits((10.0, 20.0), (11.0, 21.0));
    assert_eq!(wp.heading, expected);
    assert_ne!(wp.heading, 90.0f32.to_bits());
}

#[test]
fn identical_poi_rows_share_one_entry() {
    let records = vec![record_of(row_with_poi()), record_of(row_with_poi())];
    let mission = ingest(&records).expect("rows must ingest");
    assert_eq!(mission.waypoints().len(), 2);
    assert_eq!(mission.pois().len(), 1);
    assert_eq!(mission.waypoints()[0].poi_index, Some(0));
    assert_eq!(mission.waypoints()[1].poi_index, Some(0));
}

#[test]
fn different_poi_rows_get_their_own_entries() {
    let mut other = row_with_poi();
    other[42] = "8.5".to_string(); // same position, different altitude
    let records = vec![record_of(row_with_poi()), record_of(other), record_of(row_with_poi())];
    let mission = ingest(&records).expect("rows must ingest");
    assert_eq!(mission.pois().len(), 2);
    assert_eq!(mission.waypoints()[0].poi_index, Some(0));
    assert_eq!(mission.waypoints()[1].poi_index, Some(1));
    assert_eq!(mission.waypoints()[2].poi_index, Some(0));
}

#[test]
fn poi_identity_is_bitwise_negative_zero_differs() {
    // -0.0 and 0.0 differ as bit patterns, so the candidates differ.
    let mut a = row_with_poi();
    a[42] = "7.5".to_string();
    let mut b = row_with_poi();
    b[42] = "7.50".to_string(); // same value, same bits: deduplicated
    let records = vec![record_of(a), record_of(b)];
    let mission = ingest(&records).expect("rows must ingest");
    assert_eq!(mission.pois().len(), 1);
}

#[test]
fn ingestion_uses_the_default_configuration() {
    let records = vec![record_of(base_row())];
    let mission = ingest(&records).expect("row must ingest");
    let config = mission.config();
    assert_eq!(config.cruising_speed, 8.0f32.to_bits());
    assert_eq!(config.rc_speed, 14.0f32.to_bits());
    assert_eq!(config.n_repeat, 1);
    assert_eq!(config.version, 11);
    assert!(config.photo_interval.is_none());
}

#[test]
fn poi_numbering_follows_first_discovery_order() {
    let mut near = row_with_poi();
    near[42] = "7.5".to_string();
    let mut far = row_with_poi();
    far[42] = "8.5".to_string();
    // Same two candidates, met in opposite orders, are numbered by first
    // discovery: the ingestion is strictly sequential.
    let forward = ingest(&vec![record_of(near.clone()), record_of(far.clone())])
        .expect("rows must ingest");
    let backward =
        ingest(&vec![record_of(far), record_of(near)]).expect("rows must ingest");
    assert_eq!(forward.pois()[0].altitude, 7.5f32.to_bits());
    assert_eq!(backward.pois()[0].altitude, 8.5f32.to_bits());
}
