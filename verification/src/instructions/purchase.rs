//! Buying a ticket.

use crate::account::{transfer, transfer_refusal, Account, Signer};
use crate::constants::MAX_TICKETS;
use crate::error::ErrorCode;
use crate::state::lottery::{Lottery, LotteryView};
use crate::state::ticket::{in_range, numbers_distinct, numbers_in_range, Ticket};
use vstd::prelude::*;

verus! {

/// The accounts of a purchase: the buyer, the round, and the record, still
/// blank, that the ticket is written into.
#[derive(Debug)]
pub struct Purchase {
    /// The caller, who pays for the ticket.
    pub authority: Signer,
    /// The round, with its escrow.
    pub lottery: Account<Lottery>,
    /// The record at the address derived from the round and the buyer.
    pub ticket: Account<Ticket>,
    /// The bump of that address.
    pub bump: u8,
}

/// Why a purchase is refused, or `None` where it goes through. The checks run
/// in this order: the round is on sale; the numbers lie in 1..=10; none occurs
/// twice; a ticket is left; the buyer can pay the price and the escrow can
/// take it.
pub open spec fn purchase_refusal(
    lottery: LotteryView,
    numbers: Seq<u8>,
    buyer_balance: u64,
    escrow: u64,
) -> Option<ErrorCode> {
    if !lottery.is_active {
        Some(ErrorCode::LotteryNotActive)
    } else if !in_range(numbers) {
        Some(ErrorCode::LotteryInvalidNumbers)
    } else if !numbers.no_duplicates() {
        Some(ErrorCode::LotteryInvalidNumbers)
    } else if lottery.sold >= MAX_TICKETS {
        Some(ErrorCode::LotterySoldOut)
    } else {
        transfer_refusal(buyer_balance, escrow, lottery.price)
    }
}

/// The round after it sold the ticket at address `ticket`: the address is
/// appended to the holders, and one more ticket is sold.
pub open spec fn purchased(lottery: LotteryView, ticket: Seq<u8>) -> LotteryView
    recommends
        lottery.sold < MAX_TICKETS,
{
    LotteryView {
        holders: lottery.holders.push(ticket),
        sold: (lottery.sold + 1) as u32,
        ..lottery
    }
}

/// Sells the caller a ticket with `numbers`.
///
/// On success the ticket record holds the numbers, the round lists the
/// ticket's address last among its holders and counts one more sale, and the
/// price has moved from the buyer to the escrow. On failure nothing changed;
/// in particular a ticket with a number outside 1..=10 or with a repeated
/// number is never sold.
pub fn handler(ctx: &mut Purchase, _id: u64, numbers: [u8; 6]) -> (done: Result<(), ErrorCode>)
    ensures
        match purchase_refusal(
            old(ctx).lottery.data@,
            numbers@,
            old(ctx).authority.lamports,
            old(ctx).lottery.lamports,
        ) {
            Some(e) => done == Err::<(), ErrorCode>(e) && *final(ctx) == *old(ctx),
            None => {
                &&& done is Ok
                &&& final(ctx).lottery.data@ == purchased(
                    old(ctx).lottery.data@,
                    old(ctx).ticket.key@,
                )
                &&& final(ctx).ticket.data == (Ticket { numbers, bump: old(ctx).bump })
                &&& final(ctx).authority.lamports == old(ctx).authority.lamports - old(
                    ctx,
                ).lottery.data.price
                &&& final(ctx).lottery.lamports == old(ctx).lottery.lamports + old(
                    ctx,
                ).lottery.data.price
                &&& final(ctx).authority.key == old(ctx).authority.key
                &&& final(ctx).lottery.key == old(ctx).lottery.key
                &&& final(ctx).ticket.key == old(ctx).ticket.key
                &&& final(ctx).ticket.lamports == old(ctx).ticket.lamports
                &&& final(ctx).bump == old(ctx).bump
            },
        },
        !(in_range(numbers@) && numbers@.no_duplicates()) ==> done is Err,
        done is Ok ==> final(ctx).ticket.data.well_formed(),
        old(ctx).lottery.data.well_formed() ==> final(ctx).lottery.data.well_formed(),
{
    if !ctx.lottery.data.is_active {
        return Err(ErrorCode::LotteryNotActive);
    }
    if !numbers_in_range(&numbers) {
        return Err(ErrorCode::LotteryInvalidNumbers);
    }
    if !numbers_distinct(&numbers) {
        return Err(ErrorCode::LotteryInvalidNumbers);
    }
    if ctx.lottery.data.sold >= MAX_TICKETS {
        return Err(ErrorCode::LotterySoldOut);
    }
    let price = ctx.lottery.data.price;
    match transfer(&mut ctx.authority.lamports, &mut ctx.lottery.lamports, price) {
        Err(e) => {
            return Err(e);
        },
        Ok(()) => {},
    }
    ctx.ticket.data = Ticket { numbers, bump: ctx.bump };
    ctx.lottery.data.holders.push(ctx.ticket.key);
    ctx.lottery.data.sold = ctx.lottery.data.sold + 1;
    assert(ctx.lottery.data@.holders =~= old(ctx).lottery.data@.holders.push(old(ctx).ticket.key@));
    Ok(())
}

} // verus!
