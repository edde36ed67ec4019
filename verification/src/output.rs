//! Historic snapshot records and the byte budget of a run.
//!
//! At every historic snapshot the driver appends one fixed-size binary
//! record per particle to the history file.  Field order and widths are part
//! of the format: each scalar is eight bytes, little endian, and the
//! floating-point fields travel as their IEEE-754 bit patterns, which this
//! library carries as plain `u64` values.  Because every record has the same
//! size, the total size of the history file is known before the first step.

use vstd::prelude::*;
use vstd::arithmetic::mul::lemma_mul_upper_bound;

verus! {

/// Bytes of one historic record: eighteen scalar fields of eight bytes.
pub const HISTORIC_RECORD_BYTES: usize = 144;

/// An ordered coordinate triple whose components are IEEE-754 double bit
/// patterns.
#[derive(Clone, Copy, Debug, PartialEq, Eq, Structural)]
pub struct AxesBits {
    pub x: u64,
    pub y: u64,
    pub z: u64,
}

/// One historic snapshot record for one particle, before serialization.
///
/// Every field except `id` is the bit pattern of an IEEE-754 double.  The
/// serialized order is the declaration order.
#[derive(Clone, Copy, Debug, PartialEq, Eq, Structural)]
pub struct HistoricRecord {
    /// Simulation clock at the snapshot.
    pub current_time: u64,
    /// The particle's unique index.
    pub id: u64,
    /// Position in the inertial (barycentric) frame.
    pub inertial_position: AxesBits,
    /// Velocity in the inertial frame.
    pub inertial_velocity: AxesBits,
    /// Spin vector.
    pub spin: AxesBits,
    /// Total acceleration acting on the particle.
    pub acceleration: AxesBits,
    /// Tidal energy-dissipation rate.
    pub denergy_dt: u64,
    /// Rate of change of the angular momentum.
    pub dangular_momentum_dt: AxesBits,
}

/// The eight bytes of `v`, least significant first.
pub open spec fn spec_u64_le(v: u64) -> Seq<u8> {
    seq![
        (v & 0xff) as u8,
        ((v >> 8) & 0xff) as u8,
        ((v >> 16) & 0xff) as u8,
        ((v >> 24) & 0xff) as u8,
        ((v >> 32) & 0xff) as u8,
        ((v >> 40) & 0xff) as u8,
        ((v >> 48) & 0xff) as u8,
        ((v >> 56) & 0xff) as u8,
    ]
}

/// The twenty-four bytes of a coordinate triple: x, then y, then z.
pub open spec fn spec_axes_le(a: AxesBits) -> Seq<u8> {
    spec_u64_le(a.x) + spec_u64_le(a.y) + spec_u64_le(a.z)
}

/// The serialized form of a whole record, fields in declaration order.
pub open spec fn spec_historic_record_bytes(r: HistoricRecord) -> Seq<u8> {
    spec_u64_le(r.current_time) + spec_u64_le(r.id) + spec_axes_le(r.inertial_position)
        + spec_axes_le(r.inertial_velocity) + spec_axes_le(r.spin) + spec_axes_le(r.acceleration)
        + spec_u64_le(r.denergy_dt) + spec_axes_le(r.dangular_momentum_dt)
}

proof fn lemma_masked_bytes_fit(v: u64)
    ensures
        v & 0xff < 256,
        (v >> 8) & 0xff < 256,
        (v >> 16) & 0xff < 256,
        (v >> 24) & 0xff < 256,
        (v >> 32) & 0xff < 256,
        (v >> 40) & 0xff < 256,
        (v >> 48) & 0xff < 256,
        (v >> 56) & 0xff < 256,
{
    assert(v & 0xff < 256 && (v >> 8) & 0xff < 256 && (v >> 16) & 0xff < 256 && (v >> 24) & 0xff
        < 256 && (v >> 32) & 0xff < 256 && (v >> 40) & 0xff < 256 && (v >> 48) & 0xff < 256 && (v
        >> 56) & 0xff < 256) by (bit_vector);
}

/// Append the eight little-endian bytes of `v`.
fn push_u64_le(out: &mut Vec<u8>, v: u64)
    ensures
        final(out)@ == old(out)@ + spec_u64_le(v),
{
    proof {
        lemma_masked_bytes_fit(v);
    }
    out.push((v & 0xff) as u8);
    out.push(((v >> 8) & 0xff) as u8);
    out.push(((v >> 16) & 0xff) as u8);
    out.push(((v >> 24) & 0xff) as u8);
    out.push(((v >> 32) & 0xff) as u8);
    out.push(((v >> 40) & 0xff) as u8);
    out.push(((v >> 48) & 0xff) as u8);
    out.push(((v >> 56) & 0xff) as u8);
    proof {
        assert(out@ =~= old(out)@ + spec_u64_le(v));
    }
}

/// Append the twenty-four little-endian bytes of a coordinate triple.
fn push_axes_le(out: &mut Vec<u8>, a: &AxesBits)
    ensures
        final(out)@ == old(out)@ + spec_axes_le(*a),
{
    push_u64_le(out, a.x);
    push_u64_le(out, a.y);
    push_u64_le(out, a.z);
    proof {
        assert(out@ =~= old(out)@ + spec_axes_le(*a));
    }
}

/// Serialize one historic record into its fixed 144-byte form.
pub fn encode_historic_record(r: &HistoricRecord) -> (out: Vec<u8>)
    ensures
        out@ == spec_historic_record_bytes(*r),
        out@.len() == HISTORIC_RECORD_BYTES as nat,
{
    let mut out: Vec<u8> = Vec::new();
    push_u64_le(&mut out, r.current_time);
    push_u64_le(&mut out, r.id);
    push_axes_le(&mut out, &r.inertial_position);
    push_axes_le(&mut out, &r.inertial_velocity);
    push_axes_le(&mut out, &r.spin);
    push_axes_le(&mut out, &r.acceleration);
    push_u64_le(&mut out, r.denergy_dt);
    push_axes_le(&mut out, &r.dangular_momentum_dt);
    proof {
        assert(out@ =~= spec_historic_record_bytes(*r));
    }
    out
}

/// Bytes one particle contributes to one historic snapshot.
pub fn n_bytes_per_particle_in_historic_snapshot() -> (n: u64)
    ensures
        n == HISTORIC_RECORD_BYTES as u64,
{
    144
}

/// Size in bytes that the history file is expected to reach by the end of
/// the run: one record per particle and historic snapshot.  `None` when
/// that total does not fit in a `u64`.
pub fn expected_history_bytes(
    n_historic_snapshots: u64,
    n_bytes_per_particle: u64,
    n_particles: u64,
) -> (total: Option<u64>)
    ensures
        total matches Some(v) ==> v == n_historic_snapshots * n_bytes_per_particle * n_particles,
        (total is Some) <==> n_historic_snapshots * n_bytes_per_particle * n_particles
            <= u64::MAX,
{
    proof {
        lemma_mul_upper_bound(
            n_historic_snapshots as int,
            u64::MAX as int,
            n_bytes_per_particle as int,
            u64::MAX as int,
        );
    }
    let per_snapshot: u128 = (n_historic_snapshots as u128) * (n_bytes_per_particle as u128);
    if n_particles == 0 {
        return Some(0);
    }
    if per_snapshot > u64::MAX as u128 {
        proof {
            assert((per_snapshot as int) * (n_particles as int) >= per_snapshot as int)
                by (nonlinear_arith)
                requires
                    n_particles as int >= 1,
                    per_snapshot as int >= 0,
            ;
        }
        return None;
    }
    proof {
        lemma_mul_upper_bound(
            per_snapshot as int,
            u64::MAX as int,
            n_particles as int,
            u64::MAX as int,
        );
    }
    let total: u128 = per_snapshot * (n_particles as u128);
    if total > u64::MAX as u128 {
        None
    } else {
        Some(total as u64)
    }
}

} // verus!
