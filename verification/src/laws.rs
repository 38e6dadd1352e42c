//! The pipeline's guarantees, stated and proved once over the models:
//! how ingestion treats malformed records, what deduplication promises
//! across rows, where the heading of a tracking waypoint comes from, and
//! what stands at the count and speed positions of every encoding.

use vstd::prelude::*;
use crate::error::LitchiError;
use crate::float_bits::{
    f32_clamp, f32_is_nan, f32_le, lemma_clamp_f32_in_range, lemma_speed_bounds_well_formed,
    F32_BITS_FIFTEEN, F32_BITS_NEG_FIFTEEN, F32_BITS_TWO,
};
use crate::encode::{
    spec_be32, spec_encode, spec_header, spec_waypoint_main, spec_waypoints_main,
};
use crate::ingest::{
    lemma_ingest_err_stable, lemma_ingest_rows_wf, lemma_poi_position_in_range, spec_ingest,
    spec_ingest_rows, spec_poi_position, spec_row_actions, spec_row_error, spec_row_poi,
    spec_row_waypoint, RecordV, ACTIONS_COUNT, RECORD_FIELD_COUNT,
};
use crate::mission::{MissionConfig, MissionV, WaypointV, POI};

verus! {

/// A run of clean records folds without error.
proof fn lemma_clean_prefix_ok(rows: Seq<RecordV>, i: int)
    requires
        0 <= i <= rows.len(),
        forall|j: int| 0 <= j < i ==> spec_row_error(#[trigger] rows[j]) is None,
    ensures
        spec_ingest_rows(rows.subrange(0, i)) is Ok,
    decreases i,
{
    if i > 0 {
        lemma_clean_prefix_ok(rows, i - 1);
        assert(rows.subrange(0, i).drop_last() =~= rows.subrange(0, i - 1));
        assert(rows.subrange(0, i).last() == rows[i - 1]);
    }
}

/// A record of the wrong width is rejected with the format error carrying
/// (actual, expected) — whatever its fields hold, since nothing of the
/// record but its width enters the decision. The first such record ends
/// the whole ingestion.
pub proof fn lemma_wrong_width_rejected(rows: Seq<RecordV>, i: int)
    requires
        0 <= i < rows.len(),
        rows[i].fields.len() != RECORD_FIELD_COUNT,
        forall|j: int| 0 <= j < i ==> spec_row_error(#[trigger] rows[j]) is None,
    ensures
        spec_ingest(rows) == Err::<MissionV, LitchiError>(
            LitchiError::IncorrectRecordLength(rows[i].fields.len() as usize, RECORD_FIELD_COUNT),
        ),
{
    lemma_clean_prefix_ok(rows, i);
    assert(rows.subrange(0, i + 1).drop_last() =~= rows.subrange(0, i));
    assert(rows.subrange(0, i + 1).last() == rows[i]);
    assert(spec_ingest_rows(rows.subrange(0, i + 1)) == Err::<
        (Seq<WaypointV>, Seq<POI>),
        LitchiError,
    >(LitchiError::IncorrectRecordLength(rows[i].fields.len() as usize, RECORD_FIELD_COUNT)));
    lemma_ingest_err_stable(rows, i + 1, rows.len() as int);
    assert(rows.subrange(0, rows.len() as int) =~= rows);
}

/// Never more points of interest than rows: each row adds at most one.
pub proof fn lemma_pois_bounded(rows: Seq<RecordV>)
    ensures
        spec_ingest_rows(rows) matches Ok(state) ==> state.1.len() <= rows.len(),
    decreases rows.len(),
{
    if rows.len() > 0 {
        lemma_pois_bounded(rows.drop_last());
    }
}

/// Row-by-row correspondence of a successful fold: one waypoint per
/// record, each clean, each equal to its record's waypoint except for
/// the assigned index, and each candidate resolved to an entry of the
/// collected list that equals it bit for bit.
pub proof fn lemma_ingest_correspondence(rows: Seq<RecordV>)
    requires
        rows.len() <= usize::MAX,
    ensures
        spec_ingest_rows(rows) matches Ok(state) ==> {
            &&& state.0.len() == rows.len()
            &&& forall|i: int| 0 <= i < rows.len() ==> spec_row_error(#[trigger] rows[i]) is None
            &&& forall|i: int|
                0 <= i < rows.len() ==> (#[trigger] state.0[i]) == (WaypointV {
                    poi_index: state.0[i].poi_index,
                    ..spec_row_waypoint(rows[i])
                })
            &&& forall|i: int|
                0 <= i < rows.len() ==> (spec_row_poi(#[trigger] rows[i]) is None
                    ==> state.0[i].poi_index is None)
            &&& forall|i: int|
                0 <= i < rows.len() ==> (spec_row_poi(#[trigger] rows[i]) matches Some(c)
                    ==> state.0[i].poi_index matches Some(p) && p < state.1.len()
                    && state.1[p as int] == c)
        },
    decreases rows.len(),
{
    if rows.len() > 0 && spec_ingest_rows(rows) is Ok {
        lemma_ingest_correspondence(rows.drop_last());
        let prev = spec_ingest_rows(rows.drop_last())->Ok_0;
        let state = spec_ingest_rows(rows)->Ok_0;
        let r = rows.last();
        let n = rows.len() - 1;
        let w = spec_row_waypoint(r);
        lemma_pois_bounded(rows.drop_last());
        assert(prev.1.len() <= n);
        assert(rows[n] == r);
        assert(forall|i: int| 0 <= i < n ==> rows.drop_last()[i] == rows[i]);
        if spec_row_poi(r) is Some {
            lemma_poi_position_in_range(prev.1, spec_row_poi(r).unwrap());
        }
        assert(state.0.len() == rows.len());
        assert(forall|i: int| 0 <= i < n ==> state.0[i] == prev.0[i]);
        assert(forall|i: int| 0 <= i < prev.1.len() ==> state.1[i] == prev.1[i]);
        assert(state.0[n] == (WaypointV { poi_index: state.0[n].poi_index, ..w }));
        assert forall|i: int| 0 <= i < rows.len() implies spec_row_error(
            #[trigger] rows[i],
        ) is None by {}
        assert forall|i: int|
            0 <= i < rows.len() implies (#[trigger] state.0[i]) == (WaypointV {
            poi_index: state.0[i].poi_index,
            ..spec_row_waypoint(rows[i])
        }) by {}
        assert forall|i: int|
            0 <= i < rows.len() implies (spec_row_poi(#[trigger] rows[i]) is None
            ==> state.0[i].poi_index is None) by {}
        assert forall|i: int|
            0 <= i < rows.len() && spec_row_poi(#[trigger] rows[i]) is Some implies (
        state.0[i].poi_index matches Some(p) && p < state.1.len() && state.1[p as int]
            == spec_row_poi(rows[i]).unwrap()) by {
            if i < n {
                assert(spec_row_poi(rows.drop_last()[i]) == spec_row_poi(rows[i]));
                assert(state.0[i] == prev.0[i]);
            } else {
                let c = spec_row_poi(r).unwrap();
                if spec_poi_position(prev.1, c) is Some {
                    let j = spec_poi_position(prev.1, c).unwrap();
                    assert(prev.1[j] == c);
                    assert(state.1[j] == prev.1[j]);
                } else {
                    assert(state.1 == prev.1.push(c));
                    assert((prev.1.len() as usize) as int == prev.1.len());
                    assert(state.1[prev.1.len() as int] == c);
                }
            }
        }
    }
}

/// No collected entry equals the candidate when its position is `None`.
proof fn lemma_poi_position_none_nowhere(pois: Seq<POI>, p: POI)
    requires
        spec_poi_position(pois, p) is None,
    ensures
        forall|j: int| 0 <= j < pois.len() ==> pois[j] != p,
    decreases pois.len(),
{
    if pois.len() > 0 {
        lemma_poi_position_none_nowhere(pois.skip(1), p);
        assert forall|j: int| 0 <= j < pois.len() implies pois[j] != p by {
            if j > 0 {
                assert(pois.skip(1)[j - 1] == pois[j]);
            }
        }
    }
}

/// The collected points of interest are pairwise distinct: a candidate
/// seen a second time never adds an entry, so exactly one entry stands
/// for any set of value-identical candidates.
pub proof fn lemma_pois_distinct(rows: Seq<RecordV>)
    ensures
        spec_ingest_rows(rows) matches Ok(state) ==> forall|p: int, q: int|
            0 <= p < q < state.1.len() ==> state.1[p] != state.1[q],
    decreases rows.len(),
{
    if rows.len() > 0 && spec_ingest_rows(rows) is Ok {
        lemma_pois_distinct(rows.drop_last());
        let prev = spec_ingest_rows(rows.drop_last())->Ok_0;
        let state = spec_ingest_rows(rows)->Ok_0;
        let r = rows.last();
        if spec_row_poi(r) is Some {
            let c = spec_row_poi(r).unwrap();
            if spec_poi_position(prev.1, c) is None {
                lemma_poi_position_none_nowhere(prev.1, c);
                assert(forall|j: int| 0 <= j < prev.1.len() ==> state.1[j] == prev.1[j]);
            }
        }
    }
}

/// Two records whose candidates are value-identical make their waypoints
/// reference one and the same entry, and a reference is always assigned.
pub proof fn lemma_identical_candidates_share_index(rows: Seq<RecordV>, i: int, j: int)
    requires
        rows.len() <= usize::MAX,
        spec_ingest_rows(rows) is Ok,
        0 <= i < rows.len(),
        0 <= j < rows.len(),
        spec_row_poi(rows[i]) is Some,
        spec_row_poi(rows[i]) == spec_row_poi(rows[j]),
    ensures
        spec_ingest_rows(rows)->Ok_0.0[i].poi_index is Some,
        spec_ingest_rows(rows)->Ok_0.0[i].poi_index == spec_ingest_rows(rows)->Ok_0.0[j].poi_index,
{
    lemma_ingest_correspondence(rows);
    lemma_pois_distinct(rows);
    let state = spec_ingest_rows(rows)->Ok_0;
    let c = spec_row_poi(rows[i]).unwrap();
    let p = state.0[i].poi_index.unwrap() as int;
    let q = state.0[j].poi_index.unwrap() as int;
    assert(state.1[p] == c && state.1[q] == c);
    if p != q {
        assert(state.1[p] != state.1[q]);
        assert(false);
    }
}

/// The heading of a waypoint that tracks a point of interest is the
/// supplied great-circle bearing — the heading parsed from the record is
/// discarded — and the referenced entry equals the record's candidate.
pub proof fn lemma_poi_heading_override(rows: Seq<RecordV>, i: int)
    requires
        rows.len() <= usize::MAX,
        spec_ingest(rows) is Ok,
        0 <= i < rows.len(),
        spec_row_poi(rows[i]) is Some,
        rows[i].poi_bearing is Some,
    ensures
        spec_ingest(rows)->Ok_0.waypoints[i].heading == rows[i].poi_bearing.unwrap(),
        spec_ingest(rows)->Ok_0.waypoints[i].poi_index matches Some(p) && spec_ingest(
            rows,
        )->Ok_0.pois[p as int] == spec_row_poi(rows[i]).unwrap(),
{
    lemma_ingest_correspondence(rows);
}

/// The encoded cruising speed lies in [-15, 15] and the encoded
/// remote-control speed in [2, 15], however extreme the configured
/// values, as long as neither is NaN; and those clamped values are
/// exactly what the header carries at its two speed positions.
pub proof fn lemma_encoded_speeds_in_range(c: MissionConfig)
    requires
        !f32_is_nan(c.cruising_speed),
        !f32_is_nan(c.rc_speed),
    ensures
        f32_le(
            F32_BITS_NEG_FIFTEEN,
            f32_clamp(c.cruising_speed, F32_BITS_NEG_FIFTEEN, F32_BITS_FIFTEEN),
        ),
        f32_le(f32_clamp(c.cruising_speed, F32_BITS_NEG_FIFTEEN, F32_BITS_FIFTEEN), F32_BITS_FIFTEEN),
        f32_le(F32_BITS_TWO, f32_clamp(c.rc_speed, F32_BITS_TWO, F32_BITS_FIFTEEN)),
        f32_le(f32_clamp(c.rc_speed, F32_BITS_TWO, F32_BITS_FIFTEEN), F32_BITS_FIFTEEN),
        spec_header(c).subrange(16, 20) == spec_be32(
            f32_clamp(c.cruising_speed, F32_BITS_NEG_FIFTEEN, F32_BITS_FIFTEEN),
        ),
        spec_header(c).subrange(20, 24) == spec_be32(
            f32_clamp(c.rc_speed, F32_BITS_TWO, F32_BITS_FIFTEEN),
        ),
{
    lemma_speed_bounds_well_formed();
    lemma_clamp_f32_in_range(c.cruising_speed, F32_BITS_NEG_FIFTEEN, F32_BITS_FIFTEEN);
    lemma_clamp_f32_in_range(c.rc_speed, F32_BITS_TWO, F32_BITS_FIFTEEN);
    assert(spec_header(c).subrange(16, 20) =~= spec_be32(
        f32_clamp(c.cruising_speed, F32_BITS_NEG_FIFTEEN, F32_BITS_FIFTEEN),
    ));
    assert(spec_header(c).subrange(20, 24) =~= spec_be32(
        f32_clamp(c.rc_speed, F32_BITS_TWO, F32_BITS_FIFTEEN),
    ));
}

/// Where the waypoint count stands in every encoding: the four bytes
/// right after the 40-byte header are the big-endian count, which is the
/// length of the mission's waypoint sequence.
#[verifier::rlimit(100)]
pub proof fn lemma_encoded_waypoint_count(m: MissionV)
    ensures
        spec_encode(m).subrange(40, 44) == spec_be32(m.waypoints.len() as u32),
{
    assert(spec_header(m.config).len() == 40);
    assert(spec_encode(m).subrange(40, 44) =~= spec_be32(m.waypoints.len() as u32));
}

/// Where the point-of-interest count stands: right after the waypoint
/// blocks.
pub open spec fn poi_count_offset(m: MissionV) -> int {
    44 + spec_waypoints_main(m.waypoints).len() as int
}

/// The four bytes at that position are the big-endian length of the
/// mission's point-of-interest sequence.
#[verifier::rlimit(100)]
pub proof fn lemma_encoded_poi_count(m: MissionV)
    ensures
        spec_encode(m).subrange(poi_count_offset(m), poi_count_offset(m) + 4) == spec_be32(
            m.pois.len() as u32,
        ),
{
    assert(spec_header(m.config).len() == 40);
    assert(spec_encode(m).subrange(poi_count_offset(m), poi_count_offset(m) + 4) =~= spec_be32(
        m.pois.len() as u32,
    ));
}

/// For a mission built by ingestion, every waypoint carries exactly the
/// non-sentinel actions its record parsed to — never more than the
/// fifteen slots — and its first-pass block encodes that count.
pub proof fn lemma_ingested_action_counts(rows: Seq<RecordV>, i: int)
    requires
        rows.len() <= usize::MAX,
        spec_ingest(rows) is Ok,
        0 <= i < rows.len(),
    ensures
        spec_ingest(rows)->Ok_0.waypoints[i].actions == spec_row_actions(rows[i])->Ok_0,
        spec_ingest(rows)->Ok_0.waypoints[i].actions.len() <= ACTIONS_COUNT,
        spec_waypoint_main(spec_ingest(rows)->Ok_0.waypoints[i]).subrange(48, 52) == spec_be32(
            spec_ingest(rows)->Ok_0.waypoints[i].actions.len() as u32,
        ),
{
    lemma_ingest_correspondence(rows);
    lemma_ingest_rows_wf(rows);
    lemma_encoded_action_count(spec_ingest(rows)->Ok_0.waypoints[i]);
}

/// Within a waypoint's first-pass block, the four bytes at position 48
/// are the big-endian count of its actions — the actions actually held,
/// which for ingested missions never exceed the fifteen slots.
pub proof fn lemma_encoded_action_count(w: WaypointV)
    ensures
        spec_waypoint_main(w).subrange(48, 52) == spec_be32(w.actions.len() as u32),
{
    assert(spec_waypoint_main(w).subrange(48, 52) =~= spec_be32(w.actions.len() as u32));
}

} // verus!
