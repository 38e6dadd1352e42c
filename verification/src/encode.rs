//! The binary encoder: a mission model to the exact byte layout the
//! flight-planning application reads.
//!
//! All multi-byte values are big-endian. Floating-point fields are held
//! as bit patterns, and writing the big-endian bytes of a bit pattern is
//! precisely writing the big-endian bytes of the floating-point value, so
//! the whole layout is stated byte for byte over the model and the
//! encoder is proved to produce it.

use vstd::prelude::*;
use crate::float_bits::{
    clamp_f32, f32_clamp, F32_BITS_FIFTEEN, F32_BITS_NEG_FIFTEEN, F32_BITS_NEG_ONE, F32_BITS_TWO,
};
use crate::mission::{
    Action, LitchiMission, MissionConfig, MissionV, PhotoInterval, Waypoint, WaypointV, POI,
};

verus! {

/// The fixed signature opening every mission file.
pub const FORMAT_MAGIC: i32 = 1818454125;

/// The format version the encoder always writes, whatever the
/// configuration stores.
pub const FORMAT_VERSION: i16 = 11;

/// The two's-complement bit pattern of a 32-bit signed value.
pub open spec fn u32_of_i32(x: i32) -> u32 {
    if x >= 0 {
        x as u32
    } else {
        (x + 0x1_0000_0000) as u32
    }
}

/// The two's-complement bit pattern of a 16-bit signed value.
pub open spec fn u16_of_i16(x: i16) -> u16 {
    if x >= 0 {
        x as u16
    } else {
        (x + 0x1_0000) as u16
    }
}

/// The two big-endian bytes of a 16-bit value.
pub open spec fn spec_be16(x: u16) -> Seq<u8> {
    seq![((x >> 8) & 0xff) as u8, (x & 0xff) as u8]
}

/// The four big-endian bytes of a 32-bit value.
pub open spec fn spec_be32(x: u32) -> Seq<u8> {
    seq![
        ((x >> 24) & 0xff) as u8,
        ((x >> 16) & 0xff) as u8,
        ((x >> 8) & 0xff) as u8,
        (x & 0xff) as u8,
    ]
}

/// The eight big-endian bytes of a 64-bit value.
pub open spec fn spec_be64(x: u64) -> Seq<u8> {
    seq![
        ((x >> 56) & 0xff) as u8,
        ((x >> 48) & 0xff) as u8,
        ((x >> 40) & 0xff) as u8,
        ((x >> 32) & 0xff) as u8,
        ((x >> 24) & 0xff) as u8,
        ((x >> 16) & 0xff) as u8,
        ((x >> 8) & 0xff) as u8,
        (x & 0xff) as u8,
    ]
}

/// Appends the two big-endian bytes of a 16-bit value.
fn put_u16_be(buf: &mut Vec<u8>, x: u16)
    ensures
        final(buf)@ == old(buf)@ + spec_be16(x),
{
    proof {
        assert(((x >> 8) & 0xff) < 256 && (x & 0xff) < 256) by (bit_vector);
    }
    buf.push(((x >> 8) & 0xff) as u8);
    buf.push((x & 0xff) as u8);
    proof {
        assert(final(buf)@ =~= old(buf)@ + spec_be16(x));
    }
}

/// Appends the four big-endian bytes of a 32-bit value.
fn put_u32_be(buf: &mut Vec<u8>, x: u32)
    ensures
        final(buf)@ == old(buf)@ + spec_be32(x),
{
    proof {
        assert(((x >> 24) & 0xff) < 256 && ((x >> 16) & 0xff) < 256 && ((x >> 8) & 0xff) < 256 && (
        x & 0xff) < 256) by (bit_vector);
    }
    buf.push(((x >> 24) & 0xff) as u8);
    buf.push(((x >> 16) & 0xff) as u8);
    buf.push(((x >> 8) & 0xff) as u8);
    buf.push((x & 0xff) as u8);
    proof {
        assert(final(buf)@ =~= old(buf)@ + spec_be32(x));
    }
}

/// Appends the eight big-endian bytes of a 64-bit value.
fn put_u64_be(buf: &mut Vec<u8>, x: u64)
    ensures
        final(buf)@ == old(buf)@ + spec_be64(x),
{
    proof {
        assert(((x >> 56) & 0xff) < 256 && ((x >> 48) & 0xff) < 256 && ((x >> 40) & 0xff) < 256 && (
        (x >> 32) & 0xff) < 256 && ((x >> 24) & 0xff) < 256 && ((x >> 16) & 0xff) < 256 && ((x >> 8)
            & 0xff) < 256 && (x & 0xff) < 256) by (bit_vector);
    }
    buf.push(((x >> 56) & 0xff) as u8);
    buf.push(((x >> 48) & 0xff) as u8);
    buf.push(((x >> 40) & 0xff) as u8);
    buf.push(((x >> 32) & 0xff) as u8);
    buf.push(((x >> 24) & 0xff) as u8);
    buf.push(((x >> 16) & 0xff) as u8);
    buf.push(((x >> 8) & 0xff) as u8);
    buf.push((x & 0xff) as u8);
    proof {
        assert(final(buf)@ =~= old(buf)@ + spec_be64(x));
    }
}

/// Appends a 32-bit signed value, big-endian two's complement.
fn put_i32_be(buf: &mut Vec<u8>, x: i32)
    ensures
        final(buf)@ == old(buf)@ + spec_be32(u32_of_i32(x)),
{
    proof {
        assert(x as u32 == (if x >= 0 {
            x as u32
        } else {
            ((x + 0x1_0000_0000) as u32)
        })) by (bit_vector);
    }
    put_u32_be(buf, x as u32);
}

/// Appends a 16-bit signed value, big-endian two's complement.
fn put_i16_be(buf: &mut Vec<u8>, x: i16)
    ensures
        final(buf)@ == old(buf)@ + spec_be16(u16_of_i16(x)),
{
    proof {
        assert(x as u16 == (if x >= 0 {
            x as u16
        } else {
            ((x + 0x1_0000) as u16)
        })) by (bit_vector);
    }
    put_u16_be(buf, x as u16);
}

/// The bytes of one action: its code, then its parameter.
pub open spec fn spec_action_bytes(a: Action) -> Seq<u8> {
    spec_be32(u32_of_i32(a.spec_idx_and_param().0)) + spec_be32(u32_of_i32(a.spec_idx_and_param().1))
}

/// The bytes of a run of actions, in slot order.
pub open spec fn spec_actions_bytes(s: Seq<Action>) -> Seq<u8>
    decreases s.len(),
{
    if s.len() == 0 {
        Seq::empty()
    } else {
        spec_actions_bytes(s.drop_last()) + spec_action_bytes(s.last())
    }
}

/// The first-pass block of one waypoint: pose, speed, timing, gimbal,
/// then the action count and the actions themselves.
pub open spec fn spec_waypoint_main(w: WaypointV) -> Seq<u8> {
    spec_be32(w.altitude) + spec_be32(u32_of_i32(w.turn_mode)) + spec_be32(w.heading) + spec_be32(
        w.speed,
    ) + spec_be16(u16_of_i16(w.stay_time)) + spec_be16(u16_of_i16(w.max_reach_time)) + spec_be64(
        w.coordinates.0,
    ) + spec_be64(w.coordinates.1) + spec_be32(w.curve_size) + spec_be32(
        w.gimbal_mode.spec_code() as u32,
    ) + spec_be32(u32_of_i32(w.gimbal_pitch_angle)) + spec_be32(w.actions.len() as u32) + spec_be32(
        u32_of_i32(w.repeat_actions),
    ) + spec_actions_bytes(w.actions)
}

/// The first-pass blocks of all waypoints, in original order.
pub open spec fn spec_waypoints_main(s: Seq<WaypointV>) -> Seq<u8>
    decreases s.len(),
{
    if s.len() == 0 {
        Seq::empty()
    } else {
        spec_waypoints_main(s.drop_last()) + spec_waypoint_main(s.last())
    }
}

/// The first-pass block of one point of interest: its position.
pub open spec fn spec_poi_main(p: POI) -> Seq<u8> {
    spec_be64(p.latitude) + spec_be64(p.longitude) + spec_be32(p.altitude)
}

/// The first-pass blocks of all points of interest, in discovery order.
pub open spec fn spec_pois_main(s: Seq<POI>) -> Seq<u8>
    decreases s.len(),
{
    if s.len() == 0 {
        Seq::empty()
    } else {
        spec_pois_main(s.drop_last()) + spec_poi_main(s.last())
    }
}

/// The second-pass block of one waypoint: altitude mode, the altitude
/// again, and the point-of-interest index — `-1` when none is attached.
pub open spec fn spec_waypoint_extra(w: WaypointV) -> Seq<u8> {
    spec_be16(u16_of_i16(w.altitude_mode.spec_code() as i16)) + spec_be32(w.altitude) + spec_be32(
        match w.poi_index {
            Some(index) => index as u32,
            None => u32_of_i32(-1i32),
        },
    )
}

/// The second-pass blocks of all waypoints, in original order.
pub open spec fn spec_waypoints_extra(s: Seq<WaypointV>) -> Seq<u8>
    decreases s.len(),
{
    if s.len() == 0 {
        Seq::empty()
    } else {
        spec_waypoints_extra(s.drop_last()) + spec_waypoint_extra(s.last())
    }
}

/// The second-pass block of one point of interest: altitude mode and
/// altitude.
pub open spec fn spec_poi_extra(p: POI) -> Seq<u8> {
    spec_be16(u16_of_i16(p.altitude_mode.spec_code() as i16)) + spec_be32(p.altitude)
}

/// The second-pass blocks of all points of interest, in discovery order.
pub open spec fn spec_pois_extra(s: Seq<POI>) -> Seq<u8>
    decreases s.len(),
{
    if s.len() == 0 {
        Seq::empty()
    } else {
        spec_pois_extra(s.drop_last()) + spec_poi_extra(s.last())
    }
}

/// The two-float block of a photo interval: (seconds, -1.0) for a time
/// interval, (-1.0, meters) for a distance interval, (-1.0, -1.0) for
/// none.
pub open spec fn spec_interval_bytes(interval: Option<PhotoInterval>) -> Seq<u8> {
    match interval {
        Some(PhotoInterval::Time(time)) => spec_be32(time) + spec_be32(F32_BITS_NEG_ONE),
        Some(PhotoInterval::Distance(distance)) => spec_be32(F32_BITS_NEG_ONE) + spec_be32(
            distance,
        ),
        None => spec_be32(F32_BITS_NEG_ONE) + spec_be32(F32_BITS_NEG_ONE),
    }
}

/// The per-waypoint photo-interval blocks, in original order.
pub open spec fn spec_waypoint_intervals(s: Seq<WaypointV>) -> Seq<u8>
    decreases s.len(),
{
    if s.len() == 0 {
        Seq::empty()
    } else {
        spec_waypoint_intervals(s.drop_last()) + spec_interval_bytes(s.last().photo_interval)
    }
}

/// The 40-byte header: the magic signature, the three mode codes, both
/// speeds clamped into their ranges, the repeat count, the forced format
/// version, and ten bytes of padding.
pub open spec fn spec_header(c: MissionConfig) -> Seq<u8> {
    spec_be32(u32_of_i32(FORMAT_MAGIC)) + spec_be32(c.heading_mode.spec_code() as u32) + spec_be32(
        c.finish_action.spec_code() as u32,
    ) + spec_be32(c.path_mode.spec_code() as u32) + spec_be32(
        f32_clamp(c.cruising_speed, F32_BITS_NEG_FIFTEEN, F32_BITS_FIFTEEN),
    ) + spec_be32(f32_clamp(c.rc_speed, F32_BITS_TWO, F32_BITS_FIFTEEN)) + spec_be32(
        u32_of_i32(c.n_repeat),
    ) + spec_be16(u16_of_i16(FORMAT_VERSION)) + seq![0u8, 0u8, 0u8, 0u8, 0u8, 0u8, 0u8, 0u8, 0u8, 0u8]
}

/// The complete encoding of a mission, section by section, in the order
/// the consumer reads them.
pub open spec fn spec_encode(m: MissionV) -> Seq<u8> {
    spec_header(m.config) + spec_be32(m.waypoints.len() as u32) + spec_waypoints_main(m.waypoints)
        + spec_be32(m.pois.len() as u32) + spec_pois_main(m.pois) + spec_waypoints_extra(
        m.waypoints,
    ) + spec_pois_extra(m.pois) + spec_be32(8u32) + spec_be32(8u32) + spec_be32(0u32)
        + spec_interval_bytes(m.config.photo_interval) + spec_waypoint_intervals(m.waypoints)
}

/// Appends the photo-interval block of `interval`.
fn put_interval(buf: &mut Vec<u8>, interval: &Option<PhotoInterval>)
    ensures
        final(buf)@ == old(buf)@ + spec_interval_bytes(*interval),
{
    match interval {
        Some(PhotoInterval::Time(time)) => {
            put_u32_be(buf, *time);
            put_u32_be(buf, F32_BITS_NEG_ONE);
        },
        Some(PhotoInterval::Distance(distance)) => {
            put_u32_be(buf, F32_BITS_NEG_ONE);
            put_u32_be(buf, *distance);
        },
        None => {
            put_u32_be(buf, F32_BITS_NEG_ONE);
            put_u32_be(buf, F32_BITS_NEG_ONE);
        },
    }
}

impl LitchiMission {
    /// Serializes the mission into the Litchi binary format.
    ///
    /// A pure function of the model with no failure mode: the counts of
    /// waypoints, points of interest and per-waypoint actions must fit a
    /// 32-bit signed integer, which is the caller's obligation, and the
    /// referential invariant of the validating constructor must hold.
    #[verifier::rlimit(100)]
    pub fn to_binary(&self) -> (r: Vec<u8>)
        requires
            self.wf(),
            self@.waypoints.len() <= 0x7fff_ffff,
            self@.pois.len() <= 0x7fff_ffff,
            forall|i: int|
                0 <= i < self@.waypoints.len() ==> (#[trigger] self@.waypoints[i]).actions.len()
                    <= 0x7fff_ffff,
        ensures
            r@ == spec_encode(self@),
    {
        let ghost m = self@;
        let mut buf: Vec<u8> = Vec::new();

        // Header.
        let config = self.config();
        put_i32_be(&mut buf, FORMAT_MAGIC);
        put_i32_be(&mut buf, config.heading_mode.code());
        put_i32_be(&mut buf, config.finish_action.code());
        put_i32_be(&mut buf, config.path_mode.code());
        put_u32_be(&mut buf, clamp_f32(config.cruising_speed, F32_BITS_NEG_FIFTEEN, F32_BITS_FIFTEEN));
        put_u32_be(&mut buf, clamp_f32(config.rc_speed, F32_BITS_TWO, F32_BITS_FIFTEEN));
        put_i32_be(&mut buf, config.n_repeat);
        put_i16_be(&mut buf, FORMAT_VERSION);
        let mut pad: usize = 0;
        while pad < 10
            invariant
                pad <= 10,
                buf@ =~= spec_header(m.config).subrange(0, 30 + pad as int),
            decreases 10 - pad,
        {
            buf.push(0u8);
            pad = pad + 1;
        }
        proof {
            assert(buf@ =~= spec_header(m.config));
        }

        let waypoints = self.waypoints();
        let pois = self.pois();
        proof {
            assert(waypoints@.map_values(|w: Waypoint| w@).len() == waypoints@.len());
        }

        // Waypoint count and first-pass blocks.
        put_u32_be(&mut buf, waypoints.len() as u32);
        let ghost after_count = spec_header(m.config) + spec_be32(m.waypoints.len() as u32);
        let mut i: usize = 0;
        while i < waypoints.len()
            invariant
                i <= waypoints.len(),
                m == self@,
                self.wf(),
                waypoints@.map_values(|w: Waypoint| w@) == m.waypoints,
                pois@ == m.pois,
                m.pois.len() <= 0x7fff_ffff,
                forall|k: int|
                    0 <= k < m.waypoints.len() ==> (#[trigger] m.waypoints[k]).actions.len()
                        <= 0x7fff_ffff,
                after_count == spec_header(m.config) + spec_be32(m.waypoints.len() as u32),
                buf@ == after_count + spec_waypoints_main(m.waypoints.subrange(0, i as int)),
            decreases waypoints.len() - i,
        {
            let w = &waypoints[i];
            proof {
                assert(w@ == m.waypoints[i as int]);
            }
            put_u32_be(&mut buf, w.altitude);
            put_i32_be(&mut buf, w.turn_mode);
            put_u32_be(&mut buf, w.heading);
            put_u32_be(&mut buf, w.speed);
            put_i16_be(&mut buf, w.stay_time);
            put_i16_be(&mut buf, w.max_reach_time);
            put_u64_be(&mut buf, w.coordinates.0);
            put_u64_be(&mut buf, w.coordinates.1);
            put_u32_be(&mut buf, w.curve_size);
            put_i32_be(&mut buf, w.gimbal_mode.code());
            put_i32_be(&mut buf, w.gimbal_pitch_angle);
            put_u32_be(&mut buf, w.actions.len() as u32);
            put_i32_be(&mut buf, w.repeat_actions);
            proof {
                assert(u32_of_i32(w@.gimbal_mode.spec_code() as i32) == w@.gimbal_mode.spec_code()
                    as u32);
            }
            let ghost before_actions = buf@;
            let mut a: usize = 0;
            while a < w.actions.len()
                invariant
                    a <= w.actions.len(),
                    w@.actions == w.actions@,
                    buf@ == before_actions + spec_actions_bytes(w.actions@.subrange(0, a as int)),
                decreases w.actions.len() - a,
            {
                let (code, param) = w.actions[a].idx_and_param();
                put_i32_be(&mut buf, code);
                put_i32_be(&mut buf, param);
                proof {
                    let t = w.actions@.subrange(0, a + 1);
                    assert(t.drop_last() =~= w.actions@.subrange(0, a as int));
                    assert(t.last() == w.actions@[a as int]);
                }
                a = a + 1;
            }
            proof {
                assert(w.actions@.subrange(0, w.actions@.len() as int) =~= w.actions@);
                let t = m.waypoints.subrange(0, i + 1);
                assert(t.drop_last() =~= m.waypoints.subrange(0, i as int));
                assert(t.last() == m.waypoints[i as int]);
                assert(buf@ == after_count + spec_waypoints_main(m.waypoints.subrange(0, i as int))
                    + spec_waypoint_main(m.waypoints[i as int]));
            }
            i = i + 1;
        }
        proof {
            assert(m.waypoints.subrange(0, m.waypoints.len() as int) =~= m.waypoints);
        }

        // Point-of-interest count and first-pass blocks.
        put_u32_be(&mut buf, pois.len() as u32);
        let ghost after_pois_count = after_count + spec_waypoints_main(m.waypoints) + spec_be32(
            m.pois.len() as u32,
        );
        let mut p: usize = 0;
        while p < pois.len()
            invariant
                p <= pois.len(),
                pois@ == m.pois,
                buf@ == after_pois_count + spec_pois_main(m.pois.subrange(0, p as int)),
            decreases pois.len() - p,
        {
            let poi = &pois[p];
            put_u64_be(&mut buf, poi.latitude);
            put_u64_be(&mut buf, poi.longitude);
            put_u32_be(&mut buf, poi.altitude);
            proof {
                let t = m.pois.subrange(0, p + 1);
                assert(t.drop_last() =~= m.pois.subrange(0, p as int));
                assert(t.last() == m.pois[p as int]);
            }
            p = p + 1;
        }
        proof {
            assert(m.pois.subrange(0, m.pois.len() as int) =~= m.pois);
        }

        // Second waypoint pass: altitude mode, altitude, reference index.
        let ghost after_pois = after_pois_count + spec_pois_main(m.pois);
        let mut i: usize = 0;
        while i < waypoints.len()
            invariant
                i <= waypoints.len(),
                m == self@,
                self.wf(),
                waypoints@.map_values(|w: Waypoint| w@) == m.waypoints,
                m.pois.len() <= 0x7fff_ffff,
                buf@ == after_pois + spec_waypoints_extra(m.waypoints.subrange(0, i as int)),
            decreases waypoints.len() - i,
        {
            let w = &waypoints[i];
            proof {
                assert(w@ == m.waypoints[i as int]);
            }
            put_i16_be(&mut buf, w.altitude_mode.code());
            put_u32_be(&mut buf, w.altitude);
            match w.poi_index {
                Some(index) => {
                    proof {
                        assert(m.waypoints[i as int].poi_index == Some(index));
                        assert(index < m.pois.len());
                        assert(u32_of_i32(index as i32) == index as u32);
                    }
                    put_i32_be(&mut buf, index as i32);
                },
                None => {
                    put_i32_be(&mut buf, -1);
                },
            }
            proof {
                let t = m.waypoints.subrange(0, i + 1);
                assert(t.drop_last() =~= m.waypoints.subrange(0, i as int));
                assert(t.last() == m.waypoints[i as int]);
            }
            i = i + 1;
        }
        proof {
            assert(m.waypoints.subrange(0, m.waypoints.len() as int) =~= m.waypoints);
        }

        // Second point-of-interest pass: altitude mode and altitude.
        let ghost after_wp_extra = after_pois + spec_waypoints_extra(m.waypoints);
        let mut p: usize = 0;
        while p < pois.len()
            invariant
                p <= pois.len(),
                pois@ == m.pois,
                buf@ == after_wp_extra + spec_pois_extra(m.pois.subrange(0, p as int)),
            decreases pois.len() - p,
        {
            let poi = &pois[p];
            put_i16_be(&mut buf, poi.altitude_mode.code());
            put_u32_be(&mut buf, poi.altitude);
            proof {
                let t = m.pois.subrange(0, p + 1);
                assert(t.drop_last() =~= m.pois.subrange(0, p as int));
                assert(t.last() == m.pois[p as int]);
            }
            p = p + 1;
        }
        proof {
            assert(m.pois.subrange(0, m.pois.len() as int) =~= m.pois);
        }

        // Fixed protocol constants, reproduced verbatim.
        put_i32_be(&mut buf, 8);
        put_i32_be(&mut buf, 8);
        put_i32_be(&mut buf, 0);

        // Global photo interval, then one block per waypoint.
        put_interval(&mut buf, &self.config().photo_interval);
        let ghost after_global = after_wp_extra + spec_pois_extra(m.pois) + spec_be32(8u32)
            + spec_be32(8u32) + spec_be32(0u32) + spec_interval_bytes(m.config.photo_interval);
        let mut i: usize = 0;
        while i < waypoints.len()
            invariant
                i <= waypoints.len(),
                m == self@,
                waypoints@.map_values(|w: Waypoint| w@) == m.waypoints,
                buf@ == after_global + spec_waypoint_intervals(m.waypoints.subrange(0, i as int)),
            decreases waypoints.len() - i,
        {
            let w = &waypoints[i];
            proof {
                assert(w@ == m.waypoints[i as int]);
            }
            put_interval(&mut buf, &w.photo_interval);
            proof {
                let t = m.waypoints.subrange(0, i + 1);
                assert(t.drop_last() =~= m.waypoints.subrange(0, i as int));
                assert(t.last() == m.waypoints[i as int]);
            }
            i = i + 1;
        }
        proof {
            assert(m.waypoints.subrange(0, m.waypoints.len() as int) =~= m.waypoints);
            assert(buf@ =~= spec_encode(m));
        }
        buf
    }
}

} // verus!
