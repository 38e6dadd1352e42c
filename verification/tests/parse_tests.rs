//! Field parsers, enumeration codes, and session data.

use litchitool::error::LitchiError;
use litchitool::intparse::{parse_i16, parse_i32};
use litchitool::mission::{
    Action, AltitudeMode, FinishAction, GimbalPitchMode, HeadingMode, MissionConfig, PathMode,
};
use litchitool::session::{MissionFile, ObjectId, SessionData};

#[test]
fn parse_i32_accepts_integer_literals() {
    assert_eq!(parse_i32("0"), Ok(0));
    assert_eq!(parse_i32("123"), Ok(123));
    assert_eq!(parse_i32("-45"), Ok(-45));
    assert_eq!(parse_i32("+7"), Ok(7));
    assert_eq!(parse_i32("000000000012"), Ok(12));
    assert_eq!(parse_i32("2147483647"), Ok(2147483647));
    assert_eq!(parse_i32("-2147483648"), Ok(-2147483648));
}

#[test]
fn parse_i32_rejects_everything_else() {
    assert_eq!(parse_i32(""), Err(LitchiError::ParseIntError));
    assert_eq!(parse_i32("+"), Err(LitchiError::ParseIntError));
    assert_eq!(parse_i32("-"), Err(LitchiError::ParseIntError));
    assert_eq!(parse_i32("1.5"), Err(LitchiError::ParseIntError));
    assert_eq!(parse_i32(" 1"), Err(LitchiError::ParseIntError));
    assert_eq!(parse_i32("1 "), Err(LitchiError::ParseIntError));
    assert_eq!(parse_i32("abc"), Err(LitchiError::ParseIntError));
    assert_eq!(parse_i32("12a"), Err(LitchiError::ParseIntError));
    assert_eq!(parse_i32("2147483648"), Err(LitchiError::ParseIntError));
    assert_eq!(parse_i32("-2147483649"), Err(LitchiError::ParseIntError));
    assert_eq!(parse_i32("--1"), Err(LitchiError::ParseIntError));
}

#[test]
fn parse_i16_bounds() {
    assert_eq!(parse_i16("32767"), Ok(32767));
    assert_eq!(parse_i16("-32768"), Ok(-32768));
    assert_eq!(parse_i16("32768"), Err(LitchiError::ParseIntError));
    assert_eq!(parse_i16("-32769"), Err(LitchiError::ParseIntError));
    assert_eq!(parse_i16("1"), Ok(1));
}

#[test]
fn enumeration_codes_round_trip() {
    for code in 0..4 {
        let mode = HeadingMode::from_code(code).expect("code in range");
        assert_eq!(mode.code(), code);
    }
    for code in 0..5 {
        let action = FinishAction::from_code(code).expect("code in range");
        assert_eq!(action.code(), code);
    }
    for code in 0..2 {
        let mode = PathMode::from_code(code).expect("code in range");
        assert_eq!(mode.code(), code);
    }
    for code in 0..3 {
        let mode = GimbalPitchMode::from_code(code).expect("code in range");
        assert_eq!(mode.code(), code);
    }
    for code in 0..2i16 {
        let mode = AltitudeMode::from_code(code).expect("code in range");
        assert_eq!(mode.code(), code);
    }
}

#[test]
fn enumeration_codes_out_of_range() {
    assert_eq!(HeadingMode::from_code(4), Err(LitchiError::TryFromPrimitiveError(4)));
    assert_eq!(FinishAction::from_code(-1), Err(LitchiError::TryFromPrimitiveError(-1)));
    assert_eq!(PathMode::from_code(2), Err(LitchiError::TryFromPrimitiveError(2)));
    assert_eq!(GimbalPitchMode::from_code(3), Err(LitchiError::TryFromPrimitiveError(3)));
    assert_eq!(AltitudeMode::from_code(2), Err(LitchiError::TryFromPrimitiveError(2)));
}

#[test]
fn action_codes_and_parameters() {
    assert_eq!(Action::StayFor(1500).idx_and_param(), (0, 1500));
    assert_eq!(Action::TakePhoto.idx_and_param(), (1, 0));
    assert_eq!(Action::StartRecording.idx_and_param(), (2, 0));
    assert_eq!(Action::StopRecording.idx_and_param(), (3, 0));
    assert_eq!(Action::RotateAircraft(-90).idx_and_param(), (4, -90));
    assert_eq!(Action::TiltCamera(30).idx_and_param(), (5, 30));
}

#[test]
fn default_configuration_values() {
    let config = MissionConfig::default();
    assert!(matches!(config.heading_mode, HeadingMode::Manual));
    assert!(matches!(config.finish_action, FinishAction::Rth));
    assert!(matches!(config.path_mode, PathMode::StraightLines));
    assert_eq!(config.cruising_speed, 8.0f32.to_bits());
    assert_eq!(config.rc_speed, 14.0f32.to_bits());
    assert_eq!(config.n_repeat, 1);
    assert_eq!(config.version, 11);
    assert!(config.photo_interval.is_none());
}

#[test]
fn session_data_holds_plain_values() {
    let session = SessionData {
        object_id: "abc".to_string(),
        username: "pilot".to_string(),
        email: "pilot@example.com".to_string(),
        name: "Pilot".to_string(),
        email_verified: true,
        session_token: "token".to_string(),
    };
    assert_eq!(session.username, "pilot");
    let file = MissionFile { name: "mission".to_string(), url: "/files/mission".to_string() };
    assert_eq!(file.name, "mission");
    assert_eq!(ObjectId("x".to_string()), ObjectId("x".to_string()));
}
