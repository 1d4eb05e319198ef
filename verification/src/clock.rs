//! The clock of the runtime that executes the program.

use anchor_lang::prelude::{Clock, ProgramError, SolanaSysvar};
use vstd::prelude::*;

verus! {

/// The runtime's reason for refusing a request, `ProgramError`. Nothing is
/// known of its values here; they are only told apart from success.
#[verifier::external_type_specification]
#[verifier::external_body]
pub struct ExProgramError(ProgramError);

/// Reads the time from the runtime's clock: calls `Clock::get` and hands on
/// the `unix_timestamp` of the clock it returns, or the error it returns.
///
/// Nothing is claimed of the result. The time differs from call to call, and
/// where no runtime provides a clock the call fails.
#[verifier::external_body]
pub(crate) fn unix_timestamp() -> (now: Result<i64, ProgramError>) {
    match Clock::get() {
        Ok(clock) => Ok(clock.unix_timestamp),
        Err(e) => Err(e),
    }
}

} // verus!
