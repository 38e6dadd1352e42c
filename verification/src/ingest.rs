//! Row ingestion: tabular records to a validated mission.
//!
//! A record arrives as 46 fields. Each field carries its raw text and,
//! for fields that hold floating-point literals, the bit patterns the
//! text denotes — produced by whatever reads the row source, since
//! decimal-to-float conversion is floating-point work. Everything else
//! is decided here: the shape check, integer parsing, action decoding,
//! photo-interval resolution, point-of-interest deduplication by exact
//! value identity, and the heading override for waypoints that track a
//! point of interest.
//!
//! The great-circle bearing behind that override is floating-point
//! trigonometry, so it too is supplied with the record: the caller asks
//! [`poi_bearing_request`] which coordinates a record needs a bearing
//! for, computes it, and attaches the bit pattern. Ingestion is proved
//! to use the supplied bearing exactly when a point of interest is
//! attached, whatever the value.

use vstd::prelude::*;
use crate::error::LitchiError;
use crate::float_bits::{f32_gt_zero, f32_is_zero, f64_is_zero, gt_zero_f32, is_zero_f32, is_zero_f64};
use crate::intparse::{parse_i16, parse_i32, spec_parse_i16, spec_parse_i32};
use crate::mission::{
    Action, AltitudeMode, Coordinate, GimbalPitchMode, LitchiMission, MissionConfig, MissionV,
    PhotoInterval, Waypoint, WaypointV, spec_default_config, mission_wf, POI,
};

verus! {

/// Number of fields a record must have.
pub const RECORD_FIELD_COUNT: usize = 46;

/// First field of the actions region.
pub const ACTIONS_OFFSET: usize = 8;

/// Number of action slots; each slot takes two fields (type, parameter).
pub const ACTIONS_COUNT: usize = 15;

/// First field after the actions region.
pub const ACTIONS_END: usize = ACTIONS_OFFSET + 2 * ACTIONS_COUNT;

/// Field positions of the fixed schema.
pub const FIELD_LATITUDE: usize = 0;
pub const FIELD_LONGITUDE: usize = 1;
pub const FIELD_ALTITUDE: usize = 2;
pub const FIELD_HEADING: usize = 3;
pub const FIELD_CURVE_SIZE: usize = 4;
pub const FIELD_ROTATION_DIR: usize = 5;
pub const FIELD_GIMBAL_MODE: usize = 6;
pub const FIELD_GIMBAL_PITCH_ANGLE: usize = 7;
pub const FIELD_ALTITUDE_MODE: usize = ACTIONS_END;
pub const FIELD_SPEED: usize = ACTIONS_END + 1;
pub const FIELD_POI_LATITUDE: usize = ACTIONS_END + 2;
pub const FIELD_POI_LONGITUDE: usize = ACTIONS_END + 3;
pub const FIELD_POI_ALTITUDE: usize = ACTIONS_END + 4;
pub const FIELD_POI_ALTITUDE_MODE: usize = ACTIONS_END + 5;
pub const FIELD_PHOTO_TIME_INTERVAL: usize = ACTIONS_END + 6;
pub const FIELD_PHOTO_DISTANCE_INTERVAL: usize = ACTIONS_END + 7;

/// One field of a record: the raw text, and the bit patterns of the
/// floating-point values the text denotes — `None` where the text is no
/// such literal. The two float readings are independent, because a
/// decimal literal rounds differently to single and to double precision.
pub struct FieldValue {
    pub text: String,
    /// The field's value as a double-precision bit pattern, when the text
    /// parses as one.
    pub f64_bits: Option<u64>,
    /// The field's value as a single-precision bit pattern, when the text
    /// parses as one.
    pub f32_bits: Option<u32>,
}

/// The mathematical shadow of a [`FieldValue`].
pub ghost struct FieldValueV {
    pub text: Seq<char>,
    pub f64_bits: Option<u64>,
    pub f32_bits: Option<u32>,
}

impl View for FieldValue {
    type V = FieldValueV;

    open spec fn view(&self) -> FieldValueV {
        FieldValueV { text: self.text@, f64_bits: self.f64_bits, f32_bits: self.f32_bits }
    }
}

/// One row of the source: its fields, and the bearing (single-precision
/// bit pattern) from the row's coordinate to its point-of-interest
/// coordinate, when [`poi_bearing_request`] asked for one.
pub struct Record {
    pub fields: Vec<FieldValue>,
    pub poi_bearing: Option<u32>,
}

/// The mathematical shadow of a [`Record`].
pub ghost struct RecordV {
    pub fields: Seq<FieldValueV>,
    pub poi_bearing: Option<u32>,
}

impl View for Record {
    type V = RecordV;

    open spec fn view(&self) -> RecordV {
        RecordV {
            fields: self.fields@.map_values(|f: FieldValue| f@),
            poi_bearing: self.poi_bearing,
        }
    }
}

/// The views of a sequence of records.
pub open spec fn records_view(rs: Seq<Record>) -> Seq<RecordV> {
    rs.map_values(|r: Record| r@)
}

/// A double-precision field: the supplied bit pattern, or the parse
/// error when the text was no floating-point literal.
pub open spec fn spec_f64_field(r: RecordV, i: int) -> Result<u64, LitchiError> {
    match r.fields[i].f64_bits {
        Some(bits) => Ok(bits),
        None => Err(LitchiError::ParseFloatError),
    }
}

/// A single-precision field, likewise.
pub open spec fn spec_f32_field(r: RecordV, i: int) -> Result<u32, LitchiError> {
    match r.fields[i].f32_bits {
        Some(bits) => Ok(bits),
        None => Err(LitchiError::ParseFloatError),
    }
}

/// A 32-bit integer field, parsed from the text.
pub open spec fn spec_i32_field(r: RecordV, i: int) -> Result<i32, LitchiError> {
    spec_parse_i32(r.fields[i].text)
}

/// A 16-bit integer field, parsed from the text.
pub open spec fn spec_i16_field(r: RecordV, i: int) -> Result<i16, LitchiError> {
    spec_parse_i16(r.fields[i].text)
}

/// What one action slot holds: nothing for the sentinel type `-1`, an
/// action for types `0..=5`, and an error for any other type. The slot's
/// two fields must parse as 32-bit integers first.
pub open spec fn spec_action_slot(r: RecordV, k: int) -> Result<Option<Action>, LitchiError> {
    match spec_i32_field(r, ACTIONS_OFFSET + 2 * k) {
        Err(e) => Err(e),
        Ok(action_type) => match spec_i32_field(r, ACTIONS_OFFSET + 1 + 2 * k) {
            Err(e) => Err(e),
            Ok(action_param) => if action_type == -1 {
                Ok(None)
            } else if action_type == 0 {
                Ok(Some(Action::StayFor(action_param)))
            } else if action_type == 1 {
                Ok(Some(Action::TakePhoto))
            } else if action_type == 2 {
                Ok(Some(Action::StartRecording))
            } else if action_type == 3 {
                Ok(Some(Action::StopRecording))
            } else if action_type == 4 {
                Ok(Some(Action::RotateAircraft(action_param)))
            } else if action_type == 5 {
                Ok(Some(Action::TiltCamera(action_param)))
            } else {
                Err(LitchiError::InvalidActionType(action_type))
            },
        },
    }
}

/// The actions of the first `k` slots, sentinels dropped, slot order
/// kept; or the first slot error.
pub open spec fn spec_actions_upto(r: RecordV, k: int) -> Result<Seq<Action>, LitchiError>
    decreases k,
{
    if k <= 0 {
        Ok(Seq::empty())
    } else {
        match spec_actions_upto(r, k - 1) {
            Err(e) => Err(e),
            Ok(actions) => match spec_action_slot(r, k - 1) {
                Err(e) => Err(e),
                Ok(None) => Ok(actions),
                Ok(Some(a)) => Ok(actions.push(a)),
            },
        }
    }
}

/// All fifteen slots of a record.
pub open spec fn spec_row_actions(r: RecordV) -> Result<Seq<Action>, LitchiError> {
    spec_actions_upto(r, ACTIONS_COUNT as int)
}

/// The first thing wrong with a record, in the order the pipeline looks:
/// the shape check, then every scalar field in schema order, then the
/// gimbal and altitude enumerations, then the action slots, then the
/// point-of-interest altitude enumeration. `None` when the record is
/// clean.
pub open spec fn spec_row_error(r: RecordV) -> Option<LitchiError> {
    if r.fields.len() != RECORD_FIELD_COUNT {
        Some(LitchiError::IncorrectRecordLength(r.fields.len() as usize, RECORD_FIELD_COUNT))
    } else if spec_f64_field(r, FIELD_LATITUDE as int) is Err {
        Some(LitchiError::ParseFloatError)
    } else if spec_f64_field(r, FIELD_LONGITUDE as int) is Err {
        Some(LitchiError::ParseFloatError)
    } else if spec_f32_field(r, FIELD_ALTITUDE as int) is Err {
        Some(LitchiError::ParseFloatError)
    } else if spec_f32_field(r, FIELD_HEADING as int) is Err {
        Some(LitchiError::ParseFloatError)
    } else if spec_f32_field(r, FIELD_CURVE_SIZE as int) is Err {
        Some(LitchiError::ParseFloatError)
    } else if spec_i32_field(r, FIELD_ROTATION_DIR as int) is Err {
        Some(LitchiError::ParseIntError)
    } else if spec_i32_field(r, FIELD_GIMBAL_MODE as int) is Err {
        Some(LitchiError::ParseIntError)
    } else if spec_i32_field(r, FIELD_GIMBAL_PITCH_ANGLE as int) is Err {
        Some(LitchiError::ParseIntError)
    } else if spec_i16_field(r, FIELD_ALTITUDE_MODE as int) is Err {
        Some(LitchiError::ParseIntError)
    } else if spec_f32_field(r, FIELD_SPEED as int) is Err {
        Some(LitchiError::ParseFloatError)
    } else if spec_f64_field(r, FIELD_POI_LATITUDE as int) is Err {
        Some(LitchiError::ParseFloatError)
    } else if spec_f64_field(r, FIELD_POI_LONGITUDE as int) is Err {
        Some(LitchiError::ParseFloatError)
    } else if spec_f32_field(r, FIELD_POI_ALTITUDE as int) is Err {
        Some(LitchiError::ParseFloatError)
    } else if spec_i16_field(r, FIELD_POI_ALTITUDE_MODE as int) is Err {
        Some(LitchiError::ParseIntError)
    } else if spec_f32_field(r, FIELD_PHOTO_TIME_INTERVAL as int) is Err {
        Some(LitchiError::ParseFloatError)
    } else if spec_f32_field(r, FIELD_PHOTO_DISTANCE_INTERVAL as int) is Err {
        Some(LitchiError::ParseFloatError)
    } else if GimbalPitchMode::spec_from_code(
        spec_i32_field(r, FIELD_GIMBAL_MODE as int).unwrap(),
    ) is Err {
        Some(
            GimbalPitchMode::spec_from_code(
                spec_i32_field(r, FIELD_GIMBAL_MODE as int).unwrap(),
            ).unwrap_err(),
        )
    } else if AltitudeMode::spec_from_code(
        spec_i16_field(r, FIELD_ALTITUDE_MODE as int).unwrap(),
    ) is Err {
        Some(
            AltitudeMode::spec_from_code(
                spec_i16_field(r, FIELD_ALTITUDE_MODE as int).unwrap(),
            ).unwrap_err(),
        )
    } else if spec_row_actions(r) is Err {
        Some(spec_row_actions(r)->Err_0)
    } else if AltitudeMode::spec_from_code(
        spec_i16_field(r, FIELD_POI_ALTITUDE_MODE as int).unwrap(),
    ) is Err {
        Some(
            AltitudeMode::spec_from_code(
                spec_i16_field(r, FIELD_POI_ALTITUDE_MODE as int).unwrap(),
            ).unwrap_err(),
        )
    } else {
        None
    }
}

/// The point-of-interest candidate of a clean record: formed exactly when
/// the candidate's longitude, latitude and altitude are all nonzero as
/// floating-point values — the two zero bit patterns of each width count
/// as zero, everything else, NaN included, as nonzero.
pub open spec fn spec_row_poi(r: RecordV) -> Option<POI> {
    let poi_latitude = spec_f64_field(r, FIELD_POI_LATITUDE as int).unwrap();
    let poi_longitude = spec_f64_field(r, FIELD_POI_LONGITUDE as int).unwrap();
    let poi_altitude = spec_f32_field(r, FIELD_POI_ALTITUDE as int).unwrap();
    let poi_altitude_mode = AltitudeMode::spec_from_code(
        spec_i16_field(r, FIELD_POI_ALTITUDE_MODE as int).unwrap(),
    ).unwrap();
    if !f64_is_zero(poi_longitude) && !f64_is_zero(poi_latitude) && !f32_is_zero(poi_altitude) {
        Some(
            POI {
                latitude: poi_latitude,
                longitude: poi_longitude,
                altitude: poi_altitude,
                altitude_mode: poi_altitude_mode,
            },
        )
    } else {
        None
    }
}

/// The photo interval of a clean record: a time interval when the time
/// field is strictly positive, else a distance interval when the distance
/// field is strictly positive, else none.
pub open spec fn spec_row_interval(r: RecordV) -> Option<PhotoInterval> {
    let time = spec_f32_field(r, FIELD_PHOTO_TIME_INTERVAL as int).unwrap();
    let distance = spec_f32_field(r, FIELD_PHOTO_DISTANCE_INTERVAL as int).unwrap();
    if f32_gt_zero(time) {
        Some(PhotoInterval::Time(time))
    } else if f32_gt_zero(distance) {
        Some(PhotoInterval::Distance(distance))
    } else {
        None
    }
}

/// The waypoint a clean record describes, before deduplication assigns
/// its point-of-interest index. When the record forms a candidate, the
/// heading parsed from the record is discarded for the supplied bearing;
/// a missing bearing leaves the parsed heading standing.
pub open spec fn spec_row_waypoint(r: RecordV) -> WaypointV {
    let heading = if spec_row_poi(r) is Some && r.poi_bearing is Some {
        r.poi_bearing.unwrap()
    } else {
        spec_f32_field(r, FIELD_HEADING as int).unwrap()
    };
    WaypointV {
        coordinates: Coordinate(
            spec_f64_field(r, FIELD_LATITUDE as int).unwrap(),
            spec_f64_field(r, FIELD_LONGITUDE as int).unwrap(),
        ),
        altitude: spec_f32_field(r, FIELD_ALTITUDE as int).unwrap(),
        heading: heading,
        curve_size: spec_f32_field(r, FIELD_CURVE_SIZE as int).unwrap(),
        rotation_dir: spec_i32_field(r, FIELD_ROTATION_DIR as int).unwrap(),
        gimbal_mode: GimbalPitchMode::spec_from_code(
            spec_i32_field(r, FIELD_GIMBAL_MODE as int).unwrap(),
        ).unwrap(),
        gimbal_pitch_angle: spec_i32_field(r, FIELD_GIMBAL_PITCH_ANGLE as int).unwrap(),
        altitude_mode: AltitudeMode::spec_from_code(
            spec_i16_field(r, FIELD_ALTITUDE_MODE as int).unwrap(),
        ).unwrap(),
        speed: spec_f32_field(r, FIELD_SPEED as int).unwrap(),
        poi_index: None,
        actions: spec_row_actions(r).unwrap(),
        photo_interval: spec_row_interval(r),
        turn_mode: 0,
        stay_time: 3,
        max_reach_time: 0,
        repeat_actions: 1,
    }
}

/// The first position of `p` among the collected points of interest, by
/// full value identity.
pub open spec fn spec_poi_position(pois: Seq<POI>, p: POI) -> Option<int>
    decreases pois.len(),
{
    if pois.len() == 0 {
        None
    } else if pois[0] == p {
        Some(0)
    } else {
        match spec_poi_position(pois.skip(1), p) {
            Some(j) => Some(j + 1),
            None => None,
        }
    }
}

/// The ingestion fold: waypoints in row order and points of interest in
/// first-discovery order, or the first record's first error. A record's
/// candidate that equals an already-collected point of interest, bit for
/// bit, makes the waypoint reference the existing entry; a new candidate
/// is appended and referenced at its own position, the end of the list.
pub open spec fn spec_ingest_rows(rows: Seq<RecordV>) -> Result<
    (Seq<WaypointV>, Seq<POI>),
    LitchiError,
>
    decreases rows.len(),
{
    if rows.len() == 0 {
        Ok((Seq::empty(), Seq::empty()))
    } else {
        match spec_ingest_rows(rows.drop_last()) {
            Err(e) => Err(e),
            Ok((waypoints, pois)) => {
                let r = rows.last();
                match spec_row_error(r) {
                    Some(e) => Err(e),
                    None => {
                        let w = spec_row_waypoint(r);
                        match spec_row_poi(r) {
                            None => Ok((waypoints.push(w), pois)),
                            Some(candidate) => match spec_poi_position(pois, candidate) {
                                Some(j) => Ok(
                                    (
                                        waypoints.push(
                                            WaypointV { poi_index: Some(j as usize), ..w },
                                        ),
                                        pois,
                                    ),
                                ),
                                None => Ok(
                                    (
                                        waypoints.push(
                                            WaypointV { poi_index: Some(pois.len() as usize), ..w },
                                        ),
                                        pois.push(candidate),
                                    ),
                                ),
                            },
                        }
                    },
                }
            },
        }
    }
}

/// What ingesting a row source yields: the fold's waypoints and points
/// of interest under the default configuration, or its first error.
pub open spec fn spec_ingest(rows: Seq<RecordV>) -> Result<MissionV, LitchiError> {
    match spec_ingest_rows(rows) {
        Err(e) => Err(e),
        Ok((waypoints, pois)) => Ok(
            MissionV { waypoints: waypoints, pois: pois, config: spec_default_config() },
        ),
    }
}

} // verus!

verus! {

/// The coordinates a record needs a great-circle bearing for: from the
/// row's own coordinate to its point-of-interest candidate's coordinate.
/// Asked for exactly when the fields involved are present and the
/// candidate's longitude, latitude and altitude are all nonzero — the
/// same test ingestion applies, so whenever ingestion attaches a point
/// of interest, a bearing was requested for that record.
pub open spec fn spec_bearing_request(r: RecordV) -> Option<(Coordinate, Coordinate)> {
    if r.fields.len() == RECORD_FIELD_COUNT && r.fields[FIELD_LATITUDE as int].f64_bits is Some
        && r.fields[FIELD_LONGITUDE as int].f64_bits is Some
        && r.fields[FIELD_POI_LATITUDE as int].f64_bits is Some
        && r.fields[FIELD_POI_LONGITUDE as int].f64_bits is Some
        && r.fields[FIELD_POI_ALTITUDE as int].f32_bits is Some
        && !f64_is_zero(r.fields[FIELD_POI_LONGITUDE as int].f64_bits.unwrap())
        && !f64_is_zero(r.fields[FIELD_POI_LATITUDE as int].f64_bits.unwrap())
        && !f32_is_zero(r.fields[FIELD_POI_ALTITUDE as int].f32_bits.unwrap()) {
        Some(
            (
                Coordinate(
                    r.fields[FIELD_LATITUDE as int].f64_bits.unwrap(),
                    r.fields[FIELD_LONGITUDE as int].f64_bits.unwrap(),
                ),
                Coordinate(
                    r.fields[FIELD_POI_LATITUDE as int].f64_bits.unwrap(),
                    r.fields[FIELD_POI_LONGITUDE as int].f64_bits.unwrap(),
                ),
            ),
        )
    } else {
        None
    }
}

/// Decides [`spec_bearing_request`]: the row-source reader calls this for
/// each record and attaches the bearing between the returned coordinates.
pub fn poi_bearing_request(record: &Record) -> (r: Option<(Coordinate, Coordinate)>)
    ensures
        r == spec_bearing_request(record@),
{
    if record.fields.len() != RECORD_FIELD_COUNT {
        return None;
    }
    let lat = &record.fields[FIELD_LATITUDE].f64_bits;
    let lon = &record.fields[FIELD_LONGITUDE].f64_bits;
    let plat = &record.fields[FIELD_POI_LATITUDE].f64_bits;
    let plon = &record.fields[FIELD_POI_LONGITUDE].f64_bits;
    let palt = &record.fields[FIELD_POI_ALTITUDE].f32_bits;
    match (lat, lon, plat, plon, palt) {
        (Some(lat), Some(lon), Some(plat), Some(plon), Some(palt)) => {
            if !is_zero_f64(*plon) && !is_zero_f64(*plat) && !is_zero_f32(*palt) {
                Some((Coordinate(*lat, *lon), Coordinate(*plat, *plon)))
            } else {
                None
            }
        },
        _ => None,
    }
}

/// Whenever a clean record attaches a point of interest, a bearing was
/// requested for it.
pub proof fn lemma_bearing_requested_when_poi_attached(r: RecordV)
    requires
        spec_row_error(r) is None,
        spec_row_poi(r) is Some,
    ensures
        spec_bearing_request(r) is Some,
{
}

/// Reads a double-precision field.
fn f64_field(record: &Record, i: usize) -> (r: Result<u64, LitchiError>)
    requires
        i < record@.fields.len(),
    ensures
        r == spec_f64_field(record@, i as int),
{
    match record.fields[i].f64_bits {
        Some(bits) => Ok(bits),
        None => Err(LitchiError::ParseFloatError),
    }
}

/// Reads a single-precision field.
fn f32_field(record: &Record, i: usize) -> (r: Result<u32, LitchiError>)
    requires
        i < record@.fields.len(),
    ensures
        r == spec_f32_field(record@, i as int),
{
    match record.fields[i].f32_bits {
        Some(bits) => Ok(bits),
        None => Err(LitchiError::ParseFloatError),
    }
}

/// Parses a 32-bit integer field.
fn i32_field(record: &Record, i: usize) -> (r: Result<i32, LitchiError>)
    requires
        i < record@.fields.len(),
    ensures
        r == spec_i32_field(record@, i as int),
{
    parse_i32(record.fields[i].text.as_str())
}

/// Parses a 16-bit integer field.
fn i16_field(record: &Record, i: usize) -> (r: Result<i16, LitchiError>)
    requires
        i < record@.fields.len(),
    ensures
        r == spec_i16_field(record@, i as int),
{
    parse_i16(record.fields[i].text.as_str())
}

/// A slot error decides every longer prefix of the slots.
proof fn lemma_actions_err_stable(r: RecordV, j: int, m: int)
    requires
        0 <= j <= m,
        spec_actions_upto(r, j) is Err,
    ensures
        spec_actions_upto(r, m) == spec_actions_upto(r, j),
    decreases m - j,
{
    if m > j {
        lemma_actions_err_stable(r, j, m - 1);
    }
}

/// A clean prefix of slots holds at most one action per slot.
proof fn lemma_actions_len(r: RecordV, k: int)
    requires
        0 <= k,
    ensures
        spec_actions_upto(r, k) matches Ok(s) ==> s.len() <= k,
    decreases k,
{
    if k > 0 {
        lemma_actions_len(r, k - 1);
    }
}

/// Decodes the fifteen action slots of a record.
fn row_actions(record: &Record) -> (r: Result<Vec<Action>, LitchiError>)
    requires
        record@.fields.len() == RECORD_FIELD_COUNT,
    ensures
        r matches Ok(v) ==> spec_row_actions(record@) matches Ok(s) && v@ == s,
        r matches Err(e) ==> spec_row_actions(record@) == Err::<Seq<Action>, LitchiError>(e),
{
    let ghost rv = record@;
    let mut actions: Vec<Action> = Vec::new();
    let mut k: usize = 0;
    while k < ACTIONS_COUNT
        invariant
            k <= ACTIONS_COUNT,
            rv == record@,
            rv.fields.len() == RECORD_FIELD_COUNT,
            spec_actions_upto(rv, k as int) matches Ok(s) && actions@ == s,
        decreases ACTIONS_COUNT - k,
    {
        let action_type = match i32_field(record, ACTIONS_OFFSET + 2 * k) {
            Ok(v) => v,
            Err(e) => {
                proof {
                    lemma_actions_err_stable(rv, k + 1, ACTIONS_COUNT as int);
                }
                return Err(e);
            },
        };
        let action_param = match i32_field(record, ACTIONS_OFFSET + 1 + 2 * k) {
            Ok(v) => v,
            Err(e) => {
                proof {
                    lemma_actions_err_stable(rv, k + 1, ACTIONS_COUNT as int);
                }
                return Err(e);
            },
        };
        if action_type == -1 {
            // Sentinel: the slot is empty.
        } else if action_type == 0 {
            actions.push(Action::StayFor(action_param));
        } else if action_type == 1 {
            actions.push(Action::TakePhoto);
        } else if action_type == 2 {
            actions.push(Action::StartRecording);
        } else if action_type == 3 {
            actions.push(Action::StopRecording);
        } else if action_type == 4 {
            actions.push(Action::RotateAircraft(action_param));
        } else if action_type == 5 {
            actions.push(Action::TiltCamera(action_param));
        } else {
            proof {
                lemma_actions_err_stable(rv, k + 1, ACTIONS_COUNT as int);
            }
            return Err(LitchiError::InvalidActionType(action_type));
        }
        k = k + 1;
    }
    Ok(actions)
}

/// Parses one record into its waypoint (point-of-interest index still
/// unassigned) and its candidate, or the record's first error.
#[verifier::rlimit(60)]
fn parse_row(record: &Record) -> (r: Result<(Waypoint, Option<POI>), LitchiError>)
    ensures
        r is Err <==> spec_row_error(record@) is Some,
        r matches Err(e) ==> Some(e) == spec_row_error(record@),
        r matches Ok(out) ==> out.0@ == spec_row_waypoint(record@) && out.1 == spec_row_poi(
            record@,
        ),
{
    if record.fields.len() != RECORD_FIELD_COUNT {
        return Err(LitchiError::IncorrectRecordLength(record.fields.len(), RECORD_FIELD_COUNT));
    }
    let latitude = match f64_field(record, FIELD_LATITUDE) {
        Ok(v) => v,
        Err(e) => { return Err(e) },
    };
    let longitude = match f64_field(record, FIELD_LONGITUDE) {
        Ok(v) => v,
        Err(e) => { return Err(e) },
    };
    let altitude = match f32_field(record, FIELD_ALTITUDE) {
        Ok(v) => v,
        Err(e) => { return Err(e) },
    };
    let heading_parsed = match f32_field(record, FIELD_HEADING) {
        Ok(v) => v,
        Err(e) => { return Err(e) },
    };
    let curve_size = match f32_field(record, FIELD_CURVE_SIZE) {
        Ok(v) => v,
        Err(e) => { return Err(e) },
    };
    let rotation_dir = match i32_field(record, FIELD_ROTATION_DIR) {
        Ok(v) => v,
        Err(e) => { return Err(e) },
    };
    let gimbal_mode_code = match i32_field(record, FIELD_GIMBAL_MODE) {
        Ok(v) => v,
        Err(e) => { return Err(e) },
    };
    let gimbal_pitch_angle = match i32_field(record, FIELD_GIMBAL_PITCH_ANGLE) {
        Ok(v) => v,
        Err(e) => { return Err(e) },
    };
    let altitude_mode_code = match i16_field(record, FIELD_ALTITUDE_MODE) {
        Ok(v) => v,
        Err(e) => { return Err(e) },
    };
    let speed = match f32_field(record, FIELD_SPEED) {
        Ok(v) => v,
        Err(e) => { return Err(e) },
    };
    let poi_latitude = match f64_field(record, FIELD_POI_LATITUDE) {
        Ok(v) => v,
        Err(e) => { return Err(e) },
    };
    let poi_longitude = match f64_field(record, FIELD_POI_LONGITUDE) {
        Ok(v) => v,
        Err(e) => { return Err(e) },
    };
    let poi_altitude = match f32_field(record, FIELD_POI_ALTITUDE) {
        Ok(v) => v,
        Err(e) => { return Err(e) },
    };
    let poi_altitude_mode_code = match i16_field(record, FIELD_POI_ALTITUDE_MODE) {
        Ok(v) => v,
        Err(e) => { return Err(e) },
    };
    let photo_time_interval = match f32_field(record, FIELD_PHOTO_TIME_INTERVAL) {
        Ok(v) => v,
        Err(e) => { return Err(e) },
    };
    let photo_distance_interval = match f32_field(record, FIELD_PHOTO_DISTANCE_INTERVAL) {
        Ok(v) => v,
        Err(e) => { return Err(e) },
    };
    let gimbal_mode = match GimbalPitchMode::from_code(gimbal_mode_code) {
        Ok(v) => v,
        Err(e) => { return Err(e) },
    };
    let altitude_mode = match AltitudeMode::from_code(altitude_mode_code) {
        Ok(v) => v,
        Err(e) => { return Err(e) },
    };
    let actions = match row_actions(record) {
        Ok(v) => v,
        Err(e) => { return Err(e) },
    };
    let poi_altitude_mode = match AltitudeMode::from_code(poi_altitude_mode_code) {
        Ok(v) => v,
        Err(e) => { return Err(e) },
    };
    let poi: Option<POI> = if !is_zero_f64(poi_longitude) && !is_zero_f64(poi_latitude)
        && !is_zero_f32(poi_altitude) {
        Some(
            POI {
                latitude: poi_latitude,
                longitude: poi_longitude,
                altitude: poi_altitude,
                altitude_mode: poi_altitude_mode,
            },
        )
    } else {
        None
    };
    let heading = if poi.is_some() {
        match record.poi_bearing {
            Some(bearing) => bearing,
            None => heading_parsed,
        }
    } else {
        heading_parsed
    };
    let photo_interval = if gt_zero_f32(photo_time_interval) {
        Some(PhotoInterval::Time(photo_time_interval))
    } else if gt_zero_f32(photo_distance_interval) {
        Some(PhotoInterval::Distance(photo_distance_interval))
    } else {
        None
    };
    let waypoint = Waypoint {
        coordinates: Coordinate(latitude, longitude),
        altitude,
        heading,
        curve_size,
        rotation_dir,
        gimbal_mode,
        gimbal_pitch_angle,
        altitude_mode,
        speed,
        poi_index: None,
        actions,
        photo_interval,
        turn_mode: 0,
        stay_time: 3,
        max_reach_time: 0,
        repeat_actions: 1,
    };
    Ok((waypoint, poi))
}

/// A candidate found at `i`, and nowhere earlier, is first found at `i`.
proof fn lemma_poi_position_found(pois: Seq<POI>, p: POI, i: int)
    requires
        0 <= i < pois.len(),
        pois[i] == p,
        forall|j: int| 0 <= j < i ==> pois[j] != p,
    ensures
        spec_poi_position(pois, p) == Some(i),
    decreases i,
{
    if i == 0 {
    } else {
        lemma_poi_position_found(pois.skip(1), p, i - 1);
    }
}

/// A candidate equal to no collected entry has no position.
pub proof fn lemma_poi_position_missing(pois: Seq<POI>, p: POI)
    requires
        forall|j: int| 0 <= j < pois.len() ==> pois[j] != p,
    ensures
        spec_poi_position(pois, p) is None,
    decreases pois.len(),
{
    if pois.len() > 0 {
        lemma_poi_position_missing(pois.skip(1), p);
    }
}

/// A first position is a real position.
pub proof fn lemma_poi_position_in_range(pois: Seq<POI>, p: POI)
    ensures
        spec_poi_position(pois, p) matches Some(j) ==> 0 <= j < pois.len() && pois[j] == p,
    decreases pois.len(),
{
    if pois.len() > 0 {
        lemma_poi_position_in_range(pois.skip(1), p);
    }
}

/// Finds the first collected point of interest equal to `p`, bit for bit.
fn find_poi(pois: &Vec<POI>, p: &POI) -> (r: Option<usize>)
    ensures
        match spec_poi_position(pois@, *p) {
            Some(j) => r == Some(j as usize),
            None => r is None,
        },
{
    let mut i: usize = 0;
    while i < pois.len()
        invariant
            i <= pois.len(),
            forall|j: int| 0 <= j < i ==> pois@[j] != *p,
        decreases pois.len() - i,
    {
        if pois[i] == *p {
            proof {
                lemma_poi_position_found(pois@, *p, i as int);
            }
            return Some(i);
        }
        i = i + 1;
    }
    proof {
        lemma_poi_position_missing(pois@, *p);
    }
    None
}

/// An early record error decides the whole fold.
pub proof fn lemma_ingest_err_stable(rows: Seq<RecordV>, j: int, m: int)
    requires
        0 <= j <= m <= rows.len(),
        spec_ingest_rows(rows.subrange(0, j)) is Err,
    ensures
        spec_ingest_rows(rows.subrange(0, m)) == spec_ingest_rows(rows.subrange(0, j)),
    decreases m - j,
{
    if m > j {
        lemma_ingest_err_stable(rows, j, m - 1);
        assert(rows.subrange(0, m).drop_last() =~= rows.subrange(0, m - 1));
    }
}

/// Everything the fold builds is internally consistent: every
/// point-of-interest index lands inside the collected list, and no
/// waypoint carries more than fifteen actions.
pub proof fn lemma_ingest_rows_wf(rows: Seq<RecordV>)
    ensures
        spec_ingest_rows(rows) matches Ok(state) ==> mission_wf(state.0, state.1) && forall|i: int|
            0 <= i < state.0.len() ==> (#[trigger] state.0[i]).actions.len() <= ACTIONS_COUNT,
    decreases rows.len(),
{
    if rows.len() > 0 {
        lemma_ingest_rows_wf(rows.drop_last());
        if spec_ingest_rows(rows) is Ok {
            let r = rows.last();
            lemma_actions_len(r, ACTIONS_COUNT as int);
            if spec_row_poi(r) is Some {
                lemma_poi_position_in_range(
                    spec_ingest_rows(rows.drop_last())->Ok_0.1,
                    spec_row_poi(r).unwrap(),
                );
            }
        }
    }
}

/// Ingests a sequence of records into a validated mission: the waypoints
/// in row order, the points of interest deduplicated by exact value
/// identity in first-discovery order, the default configuration — or the
/// first record's first error. The fold never dangles an index, so the
/// validating constructor always accepts its output.
pub fn ingest(records: &Vec<Record>) -> (r: Result<LitchiMission, LitchiError>)
    ensures
        r is Ok <==> spec_ingest(records_view(records@)) is Ok,
        r matches Ok(m) ==> spec_ingest(records_view(records@)) matches Ok(mv) && m@ == mv,
        r matches Err(e) ==> spec_ingest(records_view(records@)) == Err::<MissionV, LitchiError>(e),
{
    let ghost rows = records_view(records@);
    let mut waypoints: Vec<Waypoint> = Vec::new();
    let mut pois: Vec<POI> = Vec::new();
    proof {
        assert(rows.subrange(0, 0) =~= Seq::<RecordV>::empty());
        assert(waypoints@.map_values(|w: Waypoint| w@) =~= Seq::<WaypointV>::empty());
    }
    let mut i: usize = 0;
    while i < records.len()
        invariant
            i <= records.len(),
            rows == records_view(records@),
            rows.len() == records@.len(),
            spec_ingest_rows(rows.subrange(0, i as int)) matches Ok(state)
                && waypoints@.map_values(|w: Waypoint| w@) == state.0 && pois@ == state.1,
        decreases records.len() - i,
    {
        let ghost prefix = rows.subrange(0, i as int);
        let ghost prefix1 = rows.subrange(0, i + 1);
        proof {
            assert(prefix1.drop_last() =~= prefix);
            assert(prefix1.last() == rows[i as int]);
            assert(rows[i as int] == records@[i as int]@);
        }
        let record = &records[i];
        match parse_row(record) {
            Err(e) => {
                proof {
                    lemma_ingest_err_stable(rows, i + 1, rows.len() as int);
                    assert(rows.subrange(0, rows.len() as int) =~= rows);
                }
                return Err(e);
            },
            Ok((waypoint, candidate)) => {
                let ghost w0 = waypoint@;
                match candidate {
                    None => {
                        waypoints.push(waypoint);
                        proof {
                            assert(waypoints@.map_values(|w: Waypoint| w@)
                                =~= spec_ingest_rows(prefix)->Ok_0.0.push(w0));
                        }
                    },
                    Some(poi) => {
                        match find_poi(&pois, &poi) {
                            Some(index) => {
                                let mut waypoint = waypoint;
                                waypoint.poi_index = Some(index);
                                waypoints.push(waypoint);
                                proof {
                                    assert(waypoints@.map_values(|w: Waypoint| w@)
                                        =~= spec_ingest_rows(prefix)->Ok_0.0.push(
                                        WaypointV { poi_index: Some(index), ..w0 },
                                    ));
                                }
                            },
                            None => {
                                let index = pois.len();
                                let mut waypoint = waypoint;
                                waypoint.poi_index = Some(index);
                                waypoints.push(waypoint);
                                pois.push(poi);
                                proof {
                                    assert(waypoints@.map_values(|w: Waypoint| w@)
                                        =~= spec_ingest_rows(prefix)->Ok_0.0.push(
                                        WaypointV { poi_index: Some(index), ..w0 },
                                    ));
                                }
                            },
                        }
                    },
                }
            },
        }
        i = i + 1;
    }
    proof {
        assert(rows.subrange(0, records@.len() as int) =~= rows);
        lemma_ingest_rows_wf(rows);
    }
    match LitchiMission::new(waypoints, pois, MissionConfig::default()) {
        Ok(mission) => Ok(mission),
        Err(e) => {
            proof {
                assert(false);
            }
            Err(e)
        },
    }
}

} // verus!
