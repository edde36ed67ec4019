//! The "ignored gravity terms" marker.
//!
//! A Wisdom-Holman kick absorbs part of the Newtonian interaction into the
//! Kepler drift of the chosen canonical coordinates, so the accelerations it
//! leaves on the particles are not the full Newtonian ones.  Post-Newtonian
//! formulations need the full sum, and therefore must first rebuild the
//! host-planet terms the kick left out.  The integrator passes a marker
//! saying which terms those are; this module pins down exactly how many
//! host-planet pairs have to be rebuilt for each marker.

use vstd::prelude::*;

verus! {

/// Upper bound on the number of bodies a system may hold, host included.
/// Working buffers of the force layer are sized by this constant so that
/// layout and evaluation order stay fixed over a whole run.
pub const MAX_PARTICLES: usize = 10;

/// Which direct-sum Newtonian host-planet terms the last symplectic kick
/// left out of the particle accelerations.
#[derive(Clone, Copy, Debug, PartialEq, Eq, Structural)]
pub enum IgnoreGravityTerms {
    /// The accelerations already hold the full Newtonian sum.
    NoTerms,
    /// Only the host interaction with the first planet is missing
    /// (Jacobi coordinates).
    WHFastOne,
    /// The host interaction with every planet is missing
    /// (democratic-heliocentric and WHDS coordinates).
    WHFastTwo,
}

/// How many host-planet pairs a post-Newtonian formulation must rebuild
/// before it sees full Newtonian accelerations, for a system of
/// `n_planets` planets around one host.
pub open spec fn spec_rebuilt_pair_count(terms: IgnoreGravityTerms, n_planets: nat) -> nat {
    match terms {
        IgnoreGravityTerms::NoTerms => 0,
        IgnoreGravityTerms::WHFastOne => if n_planets == 0 { 0 } else { 1 },
        IgnoreGravityTerms::WHFastTwo => n_planets,
    }
}

/// The number of host-planet Newtonian terms to rebuild: none when the kick
/// left the full sum in place, the first pair alone for Jacobi coordinates,
/// and every pair for the heliocentric family.
pub fn rebuilt_pair_count(terms: IgnoreGravityTerms, n_planets: usize) -> (n: usize)
    ensures
        n == spec_rebuilt_pair_count(terms, n_planets as nat),
        n <= n_planets,
{
    match terms {
        IgnoreGravityTerms::NoTerms => 0,
        IgnoreGravityTerms::WHFastOne => {
            if n_planets == 0 {
                0
            } else {
                1
            }
        },
        IgnoreGravityTerms::WHFastTwo => n_planets,
    }
}

} // verus!
