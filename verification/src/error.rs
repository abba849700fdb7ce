//! The failures of the four operations, and the class each belongs to.

use vstd::prelude::*;

verus! {

/// Why an operation was refused. An operation that returns one of these has
/// changed nothing.
#[derive(Clone, Copy, Debug, PartialEq, Eq, Structural)]
pub enum ErrorCode {
    /// A ticket number lies outside 1..=10, or occurs twice.
    LotteryInvalidNumbers,
    /// The round no longer sells tickets: its numbers were drawn.
    LotteryNotActive,
    /// The round has not been drawn yet.
    LotteryIsActive,
    /// The escrow of the round was already paid out.
    LotteryAlreadyClaimed,
    /// The round holds no drawn numbers.
    LotteryNumbersNotDrawn,
    /// The ticket differs from the draw in some position.
    LotteryNumbersDoNotMatch,
    /// All tickets of the round are sold.
    LotterySoldOut,
    /// A draw was asked for a round without tickets.
    LotteryNoTicketsSold,
    /// The caller is not the authority of the round.
    Unauthorized,
    /// A record already occupies the address at which one was to be created.
    AlreadyExists,
    /// No round, or no ticket, lives at the address where one is needed.
    AccountNotInitialized,
    /// The payer holds less than the amount to move.
    InsufficientFunds,
    /// The receiver's balance would leave the range of `u64`.
    BalanceOverflow,
    /// No address can be derived from the seeds.
    InvalidSeeds,
    /// The ledger did not hand out its clock.
    ClockUnavailable,
}

/// The classes of failure that callers tell apart.
#[derive(Clone, Copy, Debug, PartialEq, Eq, Structural)]
pub enum ErrorCategory {
    /// The numbers handed in are malformed.
    InvalidInput,
    /// The round is in the wrong phase for the operation.
    PreconditionFailed,
    /// The caller may not do this.
    AuthorizationFailed,
    /// The round is sold out.
    CapacityExceeded,
    /// A draw without a single ticket.
    NoDemand,
    /// Ticket and draw differ.
    Mismatch,
    /// The record to create is already there.
    AlreadyExists,
    /// The ledger around the round refused: a missing record, a failed
    /// transfer, an address that cannot be derived, a clock that cannot be read.
    Ledger,
}

impl ErrorCode {
    /// The class of this failure.
    pub open spec fn spec_category(self) -> ErrorCategory {
        match self {
            ErrorCode::LotteryInvalidNumbers => ErrorCategory::InvalidInput,
            ErrorCode::LotteryNotActive => ErrorCategory::PreconditionFailed,
            ErrorCode::LotteryIsActive => ErrorCategory::PreconditionFailed,
            ErrorCode::LotteryAlreadyClaimed => ErrorCategory::PreconditionFailed,
            ErrorCode::LotteryNumbersNotDrawn => ErrorCategory::PreconditionFailed,
            ErrorCode::LotteryNumbersDoNotMatch => ErrorCategory::Mismatch,
            ErrorCode::LotterySoldOut => ErrorCategory::CapacityExceeded,
            ErrorCode::LotteryNoTicketsSold => ErrorCategory::NoDemand,
            ErrorCode::Unauthorized => ErrorCategory::AuthorizationFailed,
            ErrorCode::AlreadyExists => ErrorCategory::AlreadyExists,
            ErrorCode::AccountNotInitialized => ErrorCategory::Ledger,
            ErrorCode::InsufficientFunds => ErrorCategory::Ledger,
            ErrorCode::BalanceOverflow => ErrorCategory::Ledger,
            ErrorCode::InvalidSeeds => ErrorCategory::Ledger,
            ErrorCode::ClockUnavailable => ErrorCategory::Ledger,
        }
    }

    /// The text shown to a caller for this failure.
    pub open spec fn spec_message(self) -> Seq<char> {
        match self {
            ErrorCode::LotteryInvalidNumbers =>
                "Invalid numbers: Numbers must be between 1 and 10 and unique"@,
            ErrorCode::LotteryNotActive => "The lottery is not active"@,
            ErrorCode::LotteryIsActive => "The lottery is still active"@,
            ErrorCode::LotteryAlreadyClaimed => "The lottery has already been claimed"@,
            ErrorCode::LotteryNumbersNotDrawn => "The lottery numbers have not been drawn yet"@,
            ErrorCode::LotteryNumbersDoNotMatch => "The lottery numbers do not match"@,
            ErrorCode::LotterySoldOut => "The lottery is sold out"@,
            ErrorCode::LotteryNoTicketsSold => "No lottery tickets have been sold"@,
            ErrorCode::Unauthorized => "The caller is not the authority of the lottery"@,
            ErrorCode::AlreadyExists => "The record already exists"@,
            ErrorCode::AccountNotInitialized => "The record does not exist"@,
            ErrorCode::InsufficientFunds => "The payer's balance is too low"@,
            ErrorCode::BalanceOverflow => "The receiver's balance would overflow"@,
            ErrorCode::InvalidSeeds => "No address can be derived from the seeds"@,
            ErrorCode::ClockUnavailable => "The ledger clock cannot be read"@,
        }
    }

    /// The class of this failure.
    pub fn category(&self) -> (c: ErrorCategory)
        ensures
            c == self.spec_category(),
    {
        match self {
            ErrorCode::LotteryInvalidNumbers => ErrorCategory::InvalidInput,
            ErrorCode::LotteryNotActive
            | ErrorCode::LotteryIsActive
            | ErrorCode::LotteryAlreadyClaimed
            | ErrorCode::LotteryNumbersNotDrawn => ErrorCategory::PreconditionFailed,
            ErrorCode::LotteryNumbersDoNotMatch => ErrorCategory::Mismatch,
            ErrorCode::LotterySoldOut => ErrorCategory::CapacityExceeded,
            ErrorCode::LotteryNoTicketsSold => ErrorCategory::NoDemand,
            ErrorCode::Unauthorized => ErrorCategory::AuthorizationFailed,
            ErrorCode::AlreadyExists => ErrorCategory::AlreadyExists,
            ErrorCode::AccountNotInitialized
            | ErrorCode::InsufficientFunds
            | ErrorCode::BalanceOverflow
            | ErrorCode::InvalidSeeds
            | ErrorCode::ClockUnavailable => ErrorCategory::Ledger,
        }
    }

    /// The text shown to a caller for this failure.
    pub fn message(&self) -> (s: &'static str)
        ensures
            s@ == self.spec_message(),
    {
        match self {
            ErrorCode::LotteryInvalidNumbers =>
                "Invalid numbers: Numbers must be between 1 and 10 and unique",
            ErrorCode::LotteryNotActive => "The lottery is not active",
            ErrorCode::LotteryIsActive => "The lottery is still active",
            ErrorCode::LotteryAlreadyClaimed => "The lottery has already been claimed",
            ErrorCode::LotteryNumbersNotDrawn => "The lottery numbers have not been drawn yet",
            ErrorCode::LotteryNumbersDoNotMatch => "The lottery numbers do not match",
            ErrorCode::LotterySoldOut => "The lottery is sold out",
            ErrorCode::LotteryNoTicketsSold => "No lottery tickets have been sold",
            ErrorCode::Unauthorized => "The caller is not the authority of the lottery",
            ErrorCode::AlreadyExists => "The record already exists",
            ErrorCode::AccountNotInitialized => "The record does not exist",
            ErrorCode::InsufficientFunds => "The payer's balance is too low",
            ErrorCode::BalanceOverflow => "The receiver's balance would overflow",
            ErrorCode::InvalidSeeds => "No address can be derived from the seeds",
            ErrorCode::ClockUnavailable => "The ledger clock cannot be read",
        }
    }
}

} // verus!
