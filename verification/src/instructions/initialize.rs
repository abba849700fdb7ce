//! Opening a round.

use crate::account::{Account, Signer};
use crate::constants::TICKET_PRICE;
use crate::error::ErrorCode;
use crate::state::lottery::{Lottery, LotteryView};
use vstd::prelude::*;

verus! {

/// The accounts of an opening: who opens the round, and the record, still
/// blank, that the round is written into.
#[derive(Debug)]
pub struct Initialize {
    /// The caller, who becomes the authority of the round.
    pub authority: Signer,
    /// The record at the address derived from the round's identifier.
    pub lottery: Account<Lottery>,
    /// The bump of that address.
    pub bump: u8,
}

/// A round as it is opened: on sale at the fixed price, nothing sold, nothing
/// drawn, nothing claimed.
pub open spec fn opened(authority: Seq<u8>, id: u64, bump: u8) -> LotteryView {
    LotteryView {
        authority,
        id,
        holders: Seq::empty(),
        sold: 0,
        price: TICKET_PRICE,
        is_active: true,
        is_claimed: false,
        numbers: None,
        bump,
    }
}

/// Writes a newly opened round with identifier `id` into the record. The
/// caller becomes its authority. No balance changes.
pub fn handler(ctx: &mut Initialize, id: u64) -> (done: Result<(), ErrorCode>)
    ensures
        done is Ok,
        final(ctx).lottery.data@ == opened(old(ctx).authority.key@, id, old(ctx).bump),
        final(ctx).lottery.data.well_formed(),
        final(ctx).lottery.key == old(ctx).lottery.key,
        final(ctx).lottery.lamports == old(ctx).lottery.lamports,
        final(ctx).authority == old(ctx).authority,
        final(ctx).bump == old(ctx).bump,
{
    ctx.lottery.data = Lottery {
        authority: ctx.authority.key,
        id,
        holders: Vec::new(),
        sold: 0,
        price: TICKET_PRICE,
        is_active: true,
        is_claimed: false,
        numbers: None,
        bump: ctx.bump,
    };
    assert(ctx.lottery.data@.holders =~= Seq::<Seq<u8>>::empty());
    Ok(())
}

} // verus!
