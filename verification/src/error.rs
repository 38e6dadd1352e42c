use vstd::prelude::*;

verus! {

/// Errors of the ingestion pipeline and the mission model.
///
/// Every error aborts the whole operation: the first failing record wins
/// and no partial mission is ever produced.
#[derive(Debug, Clone, Copy, PartialEq, Eq, Structural)]
pub enum LitchiError {
    /// A record did not have the expected number of fields: (actual, expected).
    IncorrectRecordLength(usize, usize),
    /// A field that must hold a floating-point literal could not be read as one.
    ParseFloatError,
    /// A field that must hold an integer literal could not be read as one.
    ParseIntError,
    /// An action slot carried a type code outside the known range; holds the code.
    InvalidActionType(i32),
    /// An enumeration field carried a code outside its range; holds the code,
    /// widened to `i32` for the 16-bit coded enumerations.
    TryFromPrimitiveError(i32),
    /// A waypoint referenced a point-of-interest index past the end of the list.
    InvalidMission,
}

} // verus!
