//! Collecting the escrow of a drawn round.

use crate::account::{transfer, transfer_refusal, Account, Signer};
use crate::error::ErrorCode;
use crate::state::lottery::{Lottery, LotteryView};
use crate::state::ticket::{numbers_match, Ticket};
use vstd::prelude::*;

verus! {

/// The accounts of a claim: the claimant, the round, and the claimant's own
/// ticket in that round.
#[derive(Debug)]
pub struct Claim {
    /// The caller, who is paid.
    pub authority: Signer,
    /// The round, with its escrow.
    pub lottery: Account<Lottery>,
    /// The ticket at the address derived from the round and the caller.
    pub ticket: Account<Ticket>,
}

/// What a claim pays: the escrow above the balance that the ledger keeps back
/// in the record, and nothing where the escrow is at or below it.
pub open spec fn available(escrow: u64, rent_minimum: u64) -> u64 {
    if escrow >= rent_minimum {
        (escrow - rent_minimum) as u64
    } else {
        0
    }
}

/// Why a claim is refused, or `None` where it goes through. The checks run in
/// this order: the round was drawn; it was not claimed before; it holds
/// numbers; the ticket equals them position by position; the claimant's
/// balance can take the payout.
pub open spec fn claim_refusal(
    lottery: LotteryView,
    ticket: Seq<u8>,
    escrow: u64,
    claimant_balance: u64,
    rent_minimum: u64,
) -> Option<ErrorCode> {
    if lottery.is_active {
        Some(ErrorCode::LotteryIsActive)
    } else if lottery.is_claimed {
        Some(ErrorCode::LotteryAlreadyClaimed)
    } else if lottery.numbers is None {
        Some(ErrorCode::LotteryNumbersNotDrawn)
    } else if lottery.numbers != Some(ticket) {
        Some(ErrorCode::LotteryNumbersDoNotMatch)
    } else {
        transfer_refusal(escrow, claimant_balance, available(escrow, rent_minimum))
    }
}

/// The round after its escrow was paid out.
pub open spec fn claimed(lottery: LotteryView) -> LotteryView {
    LotteryView { is_claimed: true, ..lottery }
}

/// Pays the escrow of the round to the holder of the matching ticket.
///
/// `rent_minimum` is the balance that the ledger keeps back in the round's
/// record. On success the round is marked claimed, so that no second claim
/// goes through, and [`available`] has moved from the escrow to the claimant.
/// On failure nothing changed.
pub fn handler(ctx: &mut Claim, _id: u64, rent_minimum: u64) -> (done: Result<(), ErrorCode>)
    ensures
        match claim_refusal(
            old(ctx).lottery.data@,
            old(ctx).ticket.data.numbers@,
            old(ctx).lottery.lamports,
            old(ctx).authority.lamports,
            rent_minimum,
        ) {
            Some(e) => done == Err::<(), ErrorCode>(e) && *final(ctx) == *old(ctx),
            None => {
                &&& done is Ok
                &&& final(ctx).lottery.data@ == claimed(old(ctx).lottery.data@)
                &&& final(ctx).lottery.lamports == old(ctx).lottery.lamports - available(
                    old(ctx).lottery.lamports,
                    rent_minimum,
                )
                &&& final(ctx).authority.lamports == old(ctx).authority.lamports + available(
                    old(ctx).lottery.lamports,
                    rent_minimum,
                )
                &&& final(ctx).authority.key == old(ctx).authority.key
                &&& final(ctx).lottery.key == old(ctx).lottery.key
                &&& final(ctx).ticket == old(ctx).ticket
            },
        },
        old(ctx).lottery.data.well_formed() ==> final(ctx).lottery.data.well_formed(),
{
    if ctx.lottery.data.is_active {
        return Err(ErrorCode::LotteryIsActive);
    }
    if ctx.lottery.data.is_claimed {
        return Err(ErrorCode::LotteryAlreadyClaimed);
    }
    match ctx.lottery.data.numbers {
        None => {
            return Err(ErrorCode::LotteryNumbersNotDrawn);
        },
        Some(numbers) => {
            if !numbers_match(&numbers, &ctx.ticket.data.numbers) {
                return Err(ErrorCode::LotteryNumbersDoNotMatch);
            }
        },
    }
    let amount = ctx.lottery.lamports.saturating_sub(rent_minimum);
    match transfer(&mut ctx.lottery.lamports, &mut ctx.authority.lamports, amount) {
        Err(e) => {
            return Err(e);
        },
        Ok(()) => {},
    }
    ctx.lottery.data.is_claimed = true;
    Ok(())
}

} // verus!
