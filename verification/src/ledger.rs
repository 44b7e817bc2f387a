//! What the library asks of the ledger it runs on: the time.

use vstd::prelude::*;
use anchor_lang::prelude::{Clock, ProgramError, SolanaSysvar};

verus! {

/// `ProgramError`, the ledger's own error as anchor_lang's prelude exports it.
/// The library carries it through and never looks inside.
#[verifier::external_type_specification]
#[verifier::external_body]
pub struct ExProgramError(ProgramError);

/// Asks the ledger for its time. The body calls `Clock::get()`, the
/// `Sysvar::get` of the clock as anchor_lang's prelude exports it, and hands
/// back the clock's `unix_timestamp`, or the error where the ledger gives no
/// clock. Nothing is claimed of the answer: two calls may differ, and away
/// from a ledger there is no clock at all.
#[verifier::external_body]
pub(crate) fn ledger_time() -> (now: Result<i64, ProgramError>) {
    match Clock::get() {
        Ok(clock) => Ok(clock.unix_timestamp),
        Err(e) => Err(e),
    }
}

} // verus!
