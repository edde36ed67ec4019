//! Decision core of a Wisdom-Holman N-body driver with post-Newtonian
//! additional forces.
//!
//! The floating-point force evaluations themselves live outside this library;
//! what is collected and verified here is every discrete decision those
//! evaluations hang on:
//!
//! * which host-planet Newtonian terms a symplectic kick left out and must be
//!   rebuilt before a post-Newtonian computation ([`gravity`]),
//! * the bounded fixed-point iteration bookkeeping of the relativistic
//!   solvers, including when a non-convergence warning is owed ([`solver`]),
//! * the fixed binary layout of a historic snapshot record and the byte
//!   budget of a whole run ([`output`]),
//! * the driver's start/resume decisions: integrity verification and
//!   overwrite protection ([`driver`]).

pub mod driver;
pub mod gravity;
pub mod output;
pub mod solver;
