//! Decisions of the simulation driver.
//!
//! The command-line front end either starts a simulation from a case file or
//! resumes one from a recovery snapshot.  Two of its choices are delicate
//! enough to pin down here: whether the snapshot restore verifies file
//! integrity, and whether a fresh start would overwrite files left by an
//! earlier run.  The front end reads the flags and probes the file system,
//! hands the plain booleans in, and acts on what comes back.

use vstd::prelude::*;

verus! {

/// How the driver was invoked.
#[derive(Clone, Copy, Debug, PartialEq, Eq, Structural)]
pub enum ExecutionMode {
    /// Start a new simulation from a case description.
    Start,
    /// Resume a simulation from a recovery snapshot.
    Resume,
}

/// Whether the snapshot restore must verify file integrity.
///
/// A resumed run verifies its recovery snapshot unless `no_verify_requested`
/// was given.  A fresh start reads a case file that was written moments
/// before, so there verification runs only when the flag asks for it.
pub fn restore_verifies_integrity(mode: ExecutionMode, no_verify_requested: bool) -> (verify: bool)
    ensures
        mode is Resume ==> verify == !no_verify_requested,
        mode is Start ==> verify == no_verify_requested,
{
    match mode {
        ExecutionMode::Resume => !no_verify_requested,
        ExecutionMode::Start => no_verify_requested,
    }
}

/// The output file a fresh start refuses to clobber.
#[derive(Clone, Copy, Debug, PartialEq, Eq, Structural)]
pub enum OutputConflict {
    /// The recovery snapshot file already exists.
    SnapshotExists,
    /// The historic snapshot file already exists.
    HistoryExists,
}

/// Whether the run may write its output files.
///
/// A fresh start owns its output paths and must fail, snapshot first, when
/// either already exists; a resume reuses them by design and never
/// conflicts.
pub fn check_fresh_outputs(
    mode: ExecutionMode,
    snapshot_exists: bool,
    history_exists: bool,
) -> (conflict: Option<OutputConflict>)
    ensures
        conflict == (if mode is Start && snapshot_exists {
            Some(OutputConflict::SnapshotExists)
        } else if mode is Start && history_exists {
            Some(OutputConflict::HistoryExists)
        } else {
            None::<OutputConflict>
        }),
{
    match mode {
        ExecutionMode::Start => {
            if snapshot_exists {
                Some(OutputConflict::SnapshotExists)
            } else if history_exists {
                Some(OutputConflict::HistoryExists)
            } else {
                None
            }
        },
        ExecutionMode::Resume => None,
    }
}

} // verus!
