//! What the ledger tells a running operation about the present: its clock.

use crate::error::ErrorCode;
use anchor_lang::prelude::ProgramError;
use anchor_lang::solana_program::sysvar::Sysvar;
use vstd::prelude::*;

verus! {

/// The ledger's account of time: how many slots it has produced, and the wall
/// clock in seconds since the epoch of Unix. A draw takes its entropy from both.
#[derive(Clone, Copy, Debug, PartialEq, Eq, Structural)]
pub struct Clock {
    pub slot: u64,
    pub unix_timestamp: i64,
}

/// Trusted: the error type of `anchor_lang`'s ledger primitives, carried
/// through unread.
#[verifier::external_type_specification]
#[verifier::external_body]
pub struct ExProgramError(ProgramError);

/// Trusted: calls `Clock::get` of `anchor_lang`, which asks the running ledger
/// for its clock, and keeps the slot and the timestamp. Nothing is claimed of
/// what comes back: it differs from call to call, and away from a ledger the
/// call fails.
#[verifier::external_body]
fn sysvar_clock() -> (read: Result<Clock, ProgramError>) {
    anchor_lang::prelude::Clock::get().map(
        |clock| Clock { slot: clock.slot, unix_timestamp: clock.unix_timestamp },
    )
}

/// Reads the clock of the running ledger. Every reading is possible, and so is
/// `ClockUnavailable`: callers decide for each outcome.
pub fn ledger_clock() -> (read: Result<Clock, ErrorCode>)
    ensures
        read matches Err(e) ==> e == ErrorCode::ClockUnavailable,
{
    clock_reading(sysvar_clock())
}

/// What an answer of the ledger is worth to an operation: the clock where the
/// ledger handed one out, and `ClockUnavailable` where it refused, whatever
/// reason it gave.
pub open spec fn spec_clock_reading(answer: Result<Clock, ProgramError>) -> Result<
    Clock,
    ErrorCode,
> {
    match answer {
        Ok(clock) => Ok(clock),
        Err(_) => Err(ErrorCode::ClockUnavailable),
    }
}

/// Turns an answer of the ledger into a reading: the clock is passed on as it
/// is, and every refusal becomes `ClockUnavailable`.
pub fn clock_reading(answer: Result<Clock, ProgramError>) -> (read: Result<Clock, ErrorCode>)
    ensures
        read == spec_clock_reading(answer),
{
    match answer {
        Ok(clock) => Ok(clock),
        Err(_) => Err(ErrorCode::ClockUnavailable),
    }
}

} // verus!
