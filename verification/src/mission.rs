//! The mission model: waypoints, points of interest, configuration.
//!
//! Every floating-point quantity is held as its IEEE-754 bit pattern:
//! `u64` for double-precision degrees, `u32` for single-precision
//! altitudes, headings, speeds and intervals. The binary format copies
//! and compares these values bit for bit, so the bit pattern is the
//! value as far as the pipeline is concerned.

use vstd::prelude::*;
use crate::error::LitchiError;
use crate::float_bits::{F32_BITS_EIGHT, F32_BITS_FOURTEEN};

verus! {

/// Cardinal coordinates (latitude, longitude), each the bit pattern of a
/// double-precision value in degrees.
#[derive(Debug, Clone, Copy, PartialEq, Eq, Structural)]
pub struct Coordinate(pub u64, pub u64);

/// A behavior triggered at a waypoint. Each variant maps to a fixed
/// (code, parameter) pair in the binary format.
#[derive(Debug, Clone, Copy, PartialEq, Eq, Structural)]
pub enum Action {
    /// Pause at the waypoint. The duration is held in milliseconds, the
    /// unit the tabular source and the binary format both use; the
    /// duration in seconds is this value divided by 1000.
    StayFor(i32),
    TakePhoto,
    StartRecording,
    StopRecording,
    /// Rotate the aircraft; holds the rotation parameter in degrees.
    RotateAircraft(i32),
    /// Tilt the camera gimbal; holds the tilt parameter in degrees.
    TiltCamera(i32),
}

/// A periodic photo-capture trigger, by elapsed time or traveled
/// distance — never both. Payloads are single-precision bit patterns.
#[derive(Debug, Clone, Copy, PartialEq, Eq, Structural)]
pub enum PhotoInterval {
    /// Time in seconds.
    Time(u32),
    /// Distance in meters.
    Distance(u32),
}

/// How the aircraft chooses its heading along the path.
#[derive(Debug, Clone, Copy, PartialEq, Eq, Structural)]
pub enum HeadingMode {
    Auto,
    Initial,
    Manual,
    Custom,
}

/// What the aircraft does after the last waypoint.
#[derive(Debug, Clone, Copy, PartialEq, Eq, Structural)]
pub enum FinishAction {
    NoAction,
    Rth,
    Land,
    BackToFirst,
    Reverse,
}

/// The shape of the path between waypoints.
#[derive(Debug, Clone, Copy, PartialEq, Eq, Structural)]
pub enum PathMode {
    StraightLines,
    CurvedTurns,
}

/// How the camera gimbal pitch is driven.
#[derive(Debug, Clone, Copy, PartialEq, Eq, Structural)]
pub enum GimbalPitchMode {
    Disabled,
    FocusPOI,
    Interpolate,
}

/// How an altitude value is interpreted. Carried as a 16-bit code in the
/// binary format.
#[derive(Debug, Clone, Copy, PartialEq, Eq, Hash, Structural)]
pub enum AltitudeMode {
    Absolute,
    AboveGround,
}

impl HeadingMode {
    /// The wire code of the mode: the variants count up from zero in
    /// declaration order.
    pub open spec fn spec_code(self) -> int {
        match self {
            HeadingMode::Auto => 0,
            HeadingMode::Initial => 1,
            HeadingMode::Manual => 2,
            HeadingMode::Custom => 3,
        }
    }

    pub fn code(self) -> (r: i32)
        ensures
            r == self.spec_code(),
    {
        match self {
            HeadingMode::Auto => 0,
            HeadingMode::Initial => 1,
            HeadingMode::Manual => 2,
            HeadingMode::Custom => 3,
        }
    }

    /// The mode a wire code denotes; codes outside `0..=3` are rejected.
    pub open spec fn spec_from_code(code: i32) -> Result<HeadingMode, LitchiError> {
        if code == 0 {
            Ok(HeadingMode::Auto)
        } else if code == 1 {
            Ok(HeadingMode::Initial)
        } else if code == 2 {
            Ok(HeadingMode::Manual)
        } else if code == 3 {
            Ok(HeadingMode::Custom)
        } else {
            Err(LitchiError::TryFromPrimitiveError(code))
        }
    }

    pub fn from_code(code: i32) -> (r: Result<HeadingMode, LitchiError>)
        ensures
            r == HeadingMode::spec_from_code(code),
    {
        if code == 0 {
            Ok(HeadingMode::Auto)
        } else if code == 1 {
            Ok(HeadingMode::Initial)
        } else if code == 2 {
            Ok(HeadingMode::Manual)
        } else if code == 3 {
            Ok(HeadingMode::Custom)
        } else {
            Err(LitchiError::TryFromPrimitiveError(code))
        }
    }
}

impl FinishAction {
    /// The wire code of the action: the variants count up from zero in
    /// declaration order.
    pub open spec fn spec_code(self) -> int {
        match self {
            FinishAction::NoAction => 0,
            FinishAction::Rth => 1,
            FinishAction::Land => 2,
            FinishAction::BackToFirst => 3,
            FinishAction::Reverse => 4,
        }
    }

    pub fn code(self) -> (r: i32)
        ensures
            r == self.spec_code(),
    {
        match self {
            FinishAction::NoAction => 0,
            FinishAction::Rth => 1,
            FinishAction::Land => 2,
            FinishAction::BackToFirst => 3,
            FinishAction::Reverse => 4,
        }
    }

    /// The action a wire code denotes; codes outside `0..=4` are rejected.
    pub open spec fn spec_from_code(code: i32) -> Result<FinishAction, LitchiError> {
        if code == 0 {
            Ok(FinishAction::NoAction)
        } else if code == 1 {
            Ok(FinishAction::Rth)
        } else if code == 2 {
            Ok(FinishAction::Land)
        } else if code == 3 {
            Ok(FinishAction::BackToFirst)
        } else if code == 4 {
            Ok(FinishAction::Reverse)
        } else {
            Err(LitchiError::TryFromPrimitiveError(code))
        }
    }

    pub fn from_code(code: i32) -> (r: Result<FinishAction, LitchiError>)
        ensures
            r == FinishAction::spec_from_code(code),
    {
        if code == 0 {
            Ok(FinishAction::NoAction)
        } else if code == 1 {
            Ok(FinishAction::Rth)
        } else if code == 2 {
            Ok(FinishAction::Land)
        } else if code == 3 {
            Ok(FinishAction::BackToFirst)
        } else if code == 4 {
            Ok(FinishAction::Reverse)
        } else {
            Err(LitchiError::TryFromPrimitiveError(code))
        }
    }
}

impl PathMode {
    /// The wire code of the mode.
    pub open spec fn spec_code(self) -> int {
        match self {
            PathMode::StraightLines => 0,
            PathMode::CurvedTurns => 1,
        }
    }

    pub fn code(self) -> (r: i32)
        ensures
            r == self.spec_code(),
    {
        match self {
            PathMode::StraightLines => 0,
            PathMode::CurvedTurns => 1,
        }
    }

    /// The mode a wire code denotes; codes outside `0..=1` are rejected.
    pub open spec fn spec_from_code(code: i32) -> Result<PathMode, LitchiError> {
        if code == 0 {
            Ok(PathMode::StraightLines)
        } else if code == 1 {
            Ok(PathMode::CurvedTurns)
        } else {
            Err(LitchiError::TryFromPrimitiveError(code))
        }
    }

    pub fn from_code(code: i32) -> (r: Result<PathMode, LitchiError>)
        ensures
            r == PathMode::spec_from_code(code),
    {
        if code == 0 {
            Ok(PathMode::StraightLines)
        } else if code == 1 {
            Ok(PathMode::CurvedTurns)
        } else {
            Err(LitchiError::TryFromPrimitiveError(code))
        }
    }
}

impl GimbalPitchMode {
    /// The wire code of the mode.
    pub open spec fn spec_code(self) -> int {
        match self {
            GimbalPitchMode::Disabled => 0,
            GimbalPitchMode::FocusPOI => 1,
            GimbalPitchMode::Interpolate => 2,
        }
    }

    pub fn code(self) -> (r: i32)
        ensures
            r == self.spec_code(),
    {
        match self {
            GimbalPitchMode::Disabled => 0,
            GimbalPitchMode::FocusPOI => 1,
            GimbalPitchMode::Interpolate => 2,
        }
    }

    /// The mode a wire code denotes; codes outside `0..=2` are rejected.
    pub open spec fn spec_from_code(code: i32) -> Result<GimbalPitchMode, LitchiError> {
        if code == 0 {
            Ok(GimbalPitchMode::Disabled)
        } else if code == 1 {
            Ok(GimbalPitchMode::FocusPOI)
        } else if code == 2 {
            Ok(GimbalPitchMode::Interpolate)
        } else {
            Err(LitchiError::TryFromPrimitiveError(code))
        }
    }

    pub fn from_code(code: i32) -> (r: Result<GimbalPitchMode, LitchiError>)
        ensures
            r == GimbalPitchMode::spec_from_code(code),
    {
        if code == 0 {
            Ok(GimbalPitchMode::Disabled)
        } else if code == 1 {
            Ok(GimbalPitchMode::FocusPOI)
        } else if code == 2 {
            Ok(GimbalPitchMode::Interpolate)
        } else {
            Err(LitchiError::TryFromPrimitiveError(code))
        }
    }
}

impl AltitudeMode {
    /// The wire code of the mode, a 16-bit value.
    pub open spec fn spec_code(self) -> int {
        match self {
            AltitudeMode::Absolute => 0,
            AltitudeMode::AboveGround => 1,
        }
    }

    pub fn code(self) -> (r: i16)
        ensures
            r == self.spec_code(),
    {
        match self {
            AltitudeMode::Absolute => 0,
            AltitudeMode::AboveGround => 1,
        }
    }

    /// The mode a 16-bit wire code denotes; codes outside `0..=1` are
    /// rejected, the offending code widened into the error.
    pub open spec fn spec_from_code(code: i16) -> Result<AltitudeMode, LitchiError> {
        if code == 0 {
            Ok(AltitudeMode::Absolute)
        } else if code == 1 {
            Ok(AltitudeMode::AboveGround)
        } else {
            Err(LitchiError::TryFromPrimitiveError(code as i32))
        }
    }

    pub fn from_code(code: i16) -> (r: Result<AltitudeMode, LitchiError>)
        ensures
            r == AltitudeMode::spec_from_code(code),
    {
        if code == 0 {
            Ok(AltitudeMode::Absolute)
        } else if code == 1 {
            Ok(AltitudeMode::AboveGround)
        } else {
            Err(LitchiError::TryFromPrimitiveError(code as i32))
        }
    }
}

impl Action {
    /// The fixed (code, parameter) pair an action encodes to.
    pub open spec fn spec_idx_and_param(self) -> (i32, i32) {
        match self {
            Action::StayFor(stay_ms) => (0i32, stay_ms),
            Action::TakePhoto => (1i32, 0i32),
            Action::StartRecording => (2i32, 0i32),
            Action::StopRecording => (3i32, 0i32),
            Action::RotateAircraft(rotation) => (4i32, rotation),
            Action::TiltCamera(tilt) => (5i32, tilt),
        }
    }

    pub fn idx_and_param(&self) -> (r: (i32, i32))
        ensures
            r.0 == self.spec_idx_and_param().0,
            r.1 == self.spec_idx_and_param().1,
    {
        match self {
            Action::StayFor(stay_ms) => (0, *stay_ms),
            Action::TakePhoto => (1, 0),
            Action::StartRecording => (2, 0),
            Action::StopRecording => (3, 0),
            Action::RotateAircraft(rotation) => (4, *rotation),
            Action::TiltCamera(tilt) => (5, *tilt),
        }
    }
}

/// One navigable point of the flight path: pose, speed, attached actions,
/// and an optional back-reference into the mission's point-of-interest
/// list. Single-precision fields are bit patterns.
#[derive(Debug, Clone)]
pub struct Waypoint {
    pub coordinates: Coordinate,
    /// Altitude in meters, single-precision bits.
    pub altitude: u32,
    /// Heading in degrees, single-precision bits; informally within
    /// [-180, 180] but not enforced.
    pub heading: u32,
    /// Curve size in meters, single-precision bits.
    pub curve_size: u32,
    pub rotation_dir: i32,
    pub gimbal_mode: GimbalPitchMode,
    pub gimbal_pitch_angle: i32,
    pub altitude_mode: AltitudeMode,
    /// Speed in meters per second, single-precision bits.
    pub speed: u32,
    /// Position of the tracked point of interest in the mission's list,
    /// when one is attached.
    pub poi_index: Option<usize>,
    /// At most 15 actions, in slot order.
    pub actions: Vec<Action>,
    pub photo_interval: Option<PhotoInterval>,
    /// Opaque turn-mode code; its meaning is not documented by the format.
    pub turn_mode: i32,
    pub stay_time: i16,
    pub max_reach_time: i16,
    pub repeat_actions: i32,
}

/// The mathematical shadow of a [`Waypoint`]: the same fields, with the
/// action list as a sequence.
pub ghost struct WaypointV {
    pub coordinates: Coordinate,
    pub altitude: u32,
    pub heading: u32,
    pub curve_size: u32,
    pub rotation_dir: i32,
    pub gimbal_mode: GimbalPitchMode,
    pub gimbal_pitch_angle: i32,
    pub altitude_mode: AltitudeMode,
    pub speed: u32,
    pub poi_index: Option<usize>,
    pub actions: Seq<Action>,
    pub photo_interval: Option<PhotoInterval>,
    pub turn_mode: i32,
    pub stay_time: i16,
    pub max_reach_time: i16,
    pub repeat_actions: i32,
}

impl View for Waypoint {
    type V = WaypointV;

    open spec fn view(&self) -> WaypointV {
        WaypointV {
            coordinates: self.coordinates,
            altitude: self.altitude,
            heading: self.heading,
            curve_size: self.curve_size,
            rotation_dir: self.rotation_dir,
            gimbal_mode: self.gimbal_mode,
            gimbal_pitch_angle: self.gimbal_pitch_angle,
            altitude_mode: self.altitude_mode,
            speed: self.speed,
            poi_index: self.poi_index,
            actions: self.actions@,
            photo_interval: self.photo_interval,
            turn_mode: self.turn_mode,
            stay_time: self.stay_time,
            max_reach_time: self.max_reach_time,
            repeat_actions: self.repeat_actions,
        }
    }
}

/// A fixed ground location a gimbal or heading can track. Compared and
/// deduplicated by full value identity over all four fields — on bit
/// patterns, so the comparison is exactly the bitwise one the format asks
/// for, with no epsilon tolerance.
#[derive(Debug, Clone, Copy, PartialEq, Eq, Hash, Structural)]
pub struct POI {
    /// Latitude in degrees, double-precision bits.
    pub latitude: u64,
    /// Longitude in degrees, double-precision bits.
    pub longitude: u64,
    /// Altitude in meters, single-precision bits.
    pub altitude: u32,
    pub altitude_mode: AltitudeMode,
}

/// Mission-level configuration. Speeds are single-precision bit patterns;
/// they are clamped only at encode time.
#[derive(Debug, Clone, PartialEq, Eq, Structural)]
pub struct MissionConfig {
    pub heading_mode: HeadingMode,
    pub finish_action: FinishAction,
    pub path_mode: PathMode,
    /// Cruising speed in meters per second, single-precision bits; the
    /// encoder clamps it into [-15, 15].
    pub cruising_speed: u32,
    /// Remote-control speed in meters per second, single-precision bits;
    /// the encoder clamps it into [2, 15].
    pub rc_speed: u32,
    pub n_repeat: i32,
    /// Stored format version; the encoder ignores it and always writes 11.
    pub version: i16,
    pub photo_interval: Option<PhotoInterval>,
}

/// The default configuration given to missions built by ingestion.
pub open spec fn spec_default_config() -> MissionConfig {
    MissionConfig {
        heading_mode: HeadingMode::Manual,
        finish_action: FinishAction::Rth,
        path_mode: PathMode::StraightLines,
        cruising_speed: F32_BITS_EIGHT,
        rc_speed: F32_BITS_FOURTEEN,
        n_repeat: 1,
        version: 11,
        photo_interval: Option::None,
    }
}

impl Default for MissionConfig {
    /// Manual heading, return-to-home on finish, straight lines, cruising
    /// speed 8 m/s, remote-control speed 14 m/s, one repetition, version 11,
    /// no mission-level photo interval.
    fn default() -> (r: MissionConfig)
        ensures
            r == spec_default_config(),
    {
        MissionConfig {
            heading_mode: HeadingMode::Manual,
            finish_action: FinishAction::Rth,
            path_mode: PathMode::StraightLines,
            cruising_speed: F32_BITS_EIGHT,
            rc_speed: F32_BITS_FOURTEEN,
            n_repeat: 1,
            version: 11,
            photo_interval: Option::None,
        }
    }
}

/// The mathematical shadow of a [`LitchiMission`].
pub ghost struct MissionV {
    pub waypoints: Seq<WaypointV>,
    pub pois: Seq<POI>,
    pub config: MissionConfig,
}

/// Referential integrity: every waypoint's point-of-interest index, when
/// present, lands inside the list.
pub open spec fn mission_wf(waypoints: Seq<WaypointV>, pois: Seq<POI>) -> bool {
    forall|i: int|
        0 <= i < waypoints.len() ==> match (#[trigger] waypoints[i]).poi_index {
            Some(p) => p < pois.len(),
            None => true,
        }
}

/// A validated mission: an ordered sequence of waypoints, the points of
/// interest they reference (in first-discovery order), and one
/// configuration. Constructed only through [`LitchiMission::new`], which
/// refuses dangling references; the sequences are immutable afterwards,
/// so the invariant stands for the mission's whole life.
#[derive(Debug, Clone)]
pub struct LitchiMission {
    waypoints: Vec<Waypoint>,
    pois: Vec<POI>,
    config: MissionConfig,
}

impl View for LitchiMission {
    type V = MissionV;

    closed spec fn view(&self) -> MissionV {
        MissionV {
            waypoints: self.waypoints@.map_values(|w: Waypoint| w@),
            pois: self.pois@,
            config: self.config,
        }
    }
}

impl LitchiMission {
    /// The validating factory: accepts the parts exactly when every
    /// waypoint's point-of-interest reference is in range, and otherwise
    /// returns `InvalidMission` rather than an invalid instance.
    ///
    /// Geometric plausibility (coordinate bounds, heading range, speed
    /// ceilings) is a deliberate extension point, not checked here.
    pub fn new(waypoints: Vec<Waypoint>, pois: Vec<POI>, config: MissionConfig) -> (r: Result<
        LitchiMission,
        LitchiError,
    >)
        ensures
            r is Ok <==> mission_wf(waypoints@.map_values(|w: Waypoint| w@), pois@),
            r matches Ok(m) ==> m@ == (MissionV {
                waypoints: waypoints@.map_values(|w: Waypoint| w@),
                pois: pois@,
                config: config,
            }),
            r is Err ==> r == Err::<LitchiMission, LitchiError>(LitchiError::InvalidMission),
    {
        let ghost wv = waypoints@.map_values(|w: Waypoint| w@);
        let mut i: usize = 0;
        while i < waypoints.len()
            invariant
                i <= waypoints.len(),
                wv == waypoints@.map_values(|w: Waypoint| w@),
                forall|j: int|
                    0 <= j < i ==> match (#[trigger] wv[j]).poi_index {
                        Some(p) => p < pois@.len(),
                        None => true,
                    },
            decreases waypoints.len() - i,
        {
            match waypoints[i].poi_index {
                Some(index) => {
                    if index >= pois.len() {
                        assert(wv[i as int].poi_index == Some(index));
                        return Err(LitchiError::InvalidMission);
                    }
                },
                None => {},
            }
            assert(wv[i as int] == waypoints@[i as int]@);
            i = i + 1;
        }
        Ok(LitchiMission { waypoints, pois, config })
    }

    /// The points of interest, in first-discovery order.
    pub fn pois(&self) -> (r: &Vec<POI>)
        ensures
            r@ == self@.pois,
    {
        &self.pois
    }

    /// The waypoints, in their original order.
    pub fn waypoints(&self) -> (r: &Vec<Waypoint>)
        ensures
            r@.map_values(|w: Waypoint| w@) == self@.waypoints,
    {
        &self.waypoints
    }

    /// The mission configuration.
    pub fn config(&self) -> (r: &MissionConfig)
        ensures
            *r == self@.config,
    {
        &self.config
    }

    /// Replaces the configuration; the waypoints and points of interest —
    /// and with them the referential invariant — are untouched.
    pub fn set_config(&mut self, config: MissionConfig)
        ensures
            final(self)@ == (MissionV { config: config, ..old(self)@ }),
    {
        self.config = config;
    }

    /// Well-formedness of the model: what [`LitchiMission::new`] checked.
    pub open spec fn wf(self) -> bool {
        mission_wf(self@.waypoints, self@.pois)
    }
}

impl Default for LitchiMission {
    /// The empty mission: no waypoints, no points of interest, the
    /// default configuration. Trivially well formed.
    fn default() -> (r: LitchiMission)
        ensures
            r@.waypoints.len() == 0,
            r@.pois.len() == 0,
            r@.config == spec_default_config(),
            r.wf(),
    {
        let r = LitchiMission {
            waypoints: Vec::new(),
            pois: Vec::new(),
            config: MissionConfig::default(),
        };
        proof {
            assert(r@.waypoints =~= Seq::<WaypointV>::empty());
        }
        r
    }
}

} // verus!
