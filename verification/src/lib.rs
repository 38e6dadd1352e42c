//! A verified core for building flight missions in the Litchi binary format.
//!
//! Tabular waypoint rows are ingested into a validated mission model
//! (ordered waypoints, deduplicated points of interest, a configuration),
//! and the model is serialized into the fixed binary layout that the
//! flight-planning application consumes.
//!
//! Floating-point fields (coordinates, altitudes, speeds, intervals) are
//! carried everywhere as their IEEE-754 bit patterns (`u64` for doubles,
//! `u32` for singles). The format compares and copies those values bit for
//! bit, so every rule of the pipeline — deduplication by exact value
//! identity, range clamping, zero tests, and the byte-exact encoding — is
//! stated and proved over the bit patterns themselves. Only the conversion
//! between decimal text and bit patterns, and the great-circle bearing
//! arithmetic, happen outside this crate; their results enter as plain
//! values and every path that consumes them is verified for all values.

pub mod error;
pub mod float_bits;
pub mod intparse;
pub mod mission;
pub mod encode;
pub mod ingest;
pub mod laws;
pub mod session;
