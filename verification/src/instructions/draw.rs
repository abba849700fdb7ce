//! Drawing the winning numbers.

use crate::account::{Account, Signer};
use crate::error::ErrorCode;
use crate::state::lottery::{valid_draw, Lottery, LotteryView};
use crate::sysvar::{ledger_clock, Clock};
use vstd::prelude::*;

verus! {

/// The accounts of a draw: the caller and the round.
#[derive(Debug)]
pub struct Draw {
    /// The caller, who must be the authority of the round.
    pub authority: Signer,
    /// The round.
    pub lottery: Account<Lottery>,
}

/// The timestamp read as an unsigned number of 64 bits: itself where it is not
/// negative, and 2^64 more than itself where it is.
pub open spec fn timestamp_bits(unix_timestamp: i64) -> u64 {
    if unix_timestamp >= 0 {
        unix_timestamp as u64
    } else {
        (unix_timestamp + 0x1_0000_0000_0000_0000) as u64
    }
}

/// The seed of a draw: slot times timestamp, cut to 64 bits.
pub open spec fn draw_seed(clock: Clock) -> u64 {
    ((clock.slot as nat * timestamp_bits(clock.unix_timestamp) as nat)
        % 0x1_0000_0000_0000_0000) as u64
}

/// One drawn number: the seed divided by the divisor of its position, reduced
/// to 1..=10.
pub open spec fn drawn_number(seed: u64, divisor: u64) -> u8
    recommends
        divisor > 0,
{
    ((seed / divisor) % 10 + 1) as u8
}

/// The six numbers that a draw at `clock` yields. The positions use the
/// divisors 1, 7, 13, 17, 23 and 29.
pub open spec fn spec_winning_numbers(clock: Clock) -> Seq<u8> {
    let seed = draw_seed(clock);
    seq![
        drawn_number(seed, 1),
        drawn_number(seed, 7),
        drawn_number(seed, 13),
        drawn_number(seed, 17),
        drawn_number(seed, 23),
        drawn_number(seed, 29),
    ]
}

/// Why a draw is refused, or `None` where it goes through. The checks run in
/// this order: the caller is the authority; the round is open; a ticket was
/// sold.
pub open spec fn draw_refusal(lottery: LotteryView, caller: Seq<u8>) -> Option<ErrorCode> {
    if caller != lottery.authority {
        Some(ErrorCode::Unauthorized)
    } else if !lottery.is_active {
        Some(ErrorCode::LotteryNotActive)
    } else if lottery.sold == 0 {
        Some(ErrorCode::LotteryNoTicketsSold)
    } else {
        None
    }
}

/// The round after the draw of `numbers`: closed for good, the numbers sealed.
pub open spec fn drawn(lottery: LotteryView, numbers: Seq<u8>) -> LotteryView {
    LotteryView { numbers: Some(numbers), is_active: false, ..lottery }
}

/// What a successful draw at `clock` makes of the accounts: the round is
/// [`drawn`] with the numbers of that clock, and nothing else changes.
pub open spec fn sealed(before: Draw, after: Draw, clock: Clock) -> bool {
    &&& after.lottery.data@ == drawn(before.lottery.data@, spec_winning_numbers(clock))
    &&& after.lottery.key == before.lottery.key
    &&& after.lottery.lamports == before.lottery.lamports
    &&& after.authority == before.authority
}

/// The six numbers that a draw at `clock` yields, each in 1..=10. They may
/// repeat.
pub fn winning_numbers(clock: &Clock) -> (numbers: [u8; 6])
    ensures
        numbers@ == spec_winning_numbers(*clock),
        valid_draw(numbers@),
{
    let bits: u64 = if clock.unix_timestamp >= 0 {
        clock.unix_timestamp as u64
    } else {
        ((clock.unix_timestamp - i64::MIN) as u64) + 0x8000_0000_0000_0000
    };
    let seed: u64 = clock.slot.wrapping_mul(bits);
    let numbers: [u8; 6] = [
        (seed % 10 + 1) as u8,
        ((seed / 7) % 10 + 1) as u8,
        ((seed / 13) % 10 + 1) as u8,
        ((seed / 17) % 10 + 1) as u8,
        ((seed / 23) % 10 + 1) as u8,
        ((seed / 29) % 10 + 1) as u8,
    ];
    assert(numbers@ =~= spec_winning_numbers(*clock));
    numbers
}

/// Draws the round with the entropy of `clock`.
///
/// On success the round holds the six numbers of [`spec_winning_numbers`] and
/// is closed for good, so that no second draw goes through. On failure nothing
/// changed.
pub fn draw_with_clock(ctx: &mut Draw, clock: &Clock) -> (done: Result<(), ErrorCode>)
    ensures
        match draw_refusal(old(ctx).lottery.data@, old(ctx).authority.key@) {
            Some(e) => done == Err::<(), ErrorCode>(e) && *final(ctx) == *old(ctx),
            None => done is Ok && sealed(*old(ctx), *final(ctx), *clock),
        },
        old(ctx).lottery.data.well_formed() ==> final(ctx).lottery.data.well_formed(),
{
    if ctx.authority.key != ctx.lottery.data.authority {
        return Err(ErrorCode::Unauthorized);
    }
    if !ctx.lottery.data.is_active {
        return Err(ErrorCode::LotteryNotActive);
    }
    if ctx.lottery.data.sold == 0 {
        return Err(ErrorCode::LotteryNoTicketsSold);
    }
    let numbers = winning_numbers(clock);
    ctx.lottery.data.numbers = Some(numbers);
    ctx.lottery.data.is_active = false;
    Ok(())
}

/// Draws the round with the entropy of the running ledger's clock.
///
/// The preconditions are checked first, as in [`draw_with_clock`]. Then the
/// clock is read: where the ledger hands none out, the draw fails with
/// `ClockUnavailable` and nothing changed; else the round is sealed with the
/// numbers of the clock that was read.
pub fn handler(ctx: &mut Draw, _id: u64) -> (done: Result<(), ErrorCode>)
    ensures
        match draw_refusal(old(ctx).lottery.data@, old(ctx).authority.key@) {
            Some(e) => done == Err::<(), ErrorCode>(e) && *final(ctx) == *old(ctx),
            None => {
                ||| done == Err::<(), ErrorCode>(ErrorCode::ClockUnavailable) && *final(ctx)
                    == *old(ctx)
                ||| done is Ok && exists|clock: Clock| sealed(*old(ctx), *final(ctx), clock)
            },
        },
        old(ctx).lottery.data.well_formed() ==> final(ctx).lottery.data.well_formed(),
{
    if ctx.authority.key != ctx.lottery.data.authority {
        return Err(ErrorCode::Unauthorized);
    }
    if !ctx.lottery.data.is_active {
        return Err(ErrorCode::LotteryNotActive);
    }
    if ctx.lottery.data.sold == 0 {
        return Err(ErrorCode::LotteryNoTicketsSold);
    }
    match ledger_clock() {
        Err(e) => Err(e),
        Ok(clock) => {
            let done = draw_with_clock(ctx, &clock);
            assert(sealed(*old(ctx), *ctx, clock));
            done
        },
    }
}

} // verus!
