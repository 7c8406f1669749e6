//! What an instruction learns from the ledger itself: the current epoch and
//! the minimum-persistence balances.

use vstd::prelude::*;

verus! {

/// The smallest balances with which the ledger stores an account
/// indefinitely, as it reports them at the time of an instruction. The
/// ledger works them out in floating point, which this library keeps out:
/// the caller asks the ledger and hands the two balances over.
#[derive(Debug, Clone, Copy, PartialEq, Eq)]
pub struct RentExemption {
    /// For an account that stores a contest record.
    pub record: u64,
    /// For an account that stores nothing: the pot and the two escrows.
    pub empty: u64,
}

/// Reads the ledger's clock with `pinocchio::sysvars::clock::Clock::get`,
/// which never panics, and gives its epoch, or `None` where the ledger does
/// not supply its clock. Nothing is claimed of the epoch that comes back: it
/// changes with time, and two readings may differ.
#[verifier::external_body]
pub(crate) fn current_epoch() -> (epoch: Option<u64>) {
    let clock: Result<pinocchio::sysvars::clock::Clock, pinocchio::program_error::ProgramError> =
        pinocchio::sysvars::Sysvar::get();
    clock.ok().map(|clock| clock.epoch)
}

} // verus!
