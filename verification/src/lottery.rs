//! The four operations, run against a ledger.
//!
//! Each operation derives the addresses of the records it touches, loads
//! them, runs the handler of [`crate::instructions`] on them, and writes the
//! result back. It commits everything or nothing: where it returns an error,
//! the ledger is as it was.
//!
//! What an operation does is fixed by a function on [`LedgerView`]:
//! [`spec_initialize`], [`spec_purchase`], [`spec_draw`], [`spec_claim`].
//! Each operation comes in two steps. The first derives the addresses; the
//! second, whose name ends in `_at`, takes them as arguments and does the
//! rest.

use crate::account::{transfer, Account, Signer};
use crate::address::{
    lottery_address, spec_lottery_address, spec_ticket_address, ticket_address, Address,
};
use crate::error::ErrorCode;
use crate::instructions::claim::{available, claim_refusal, claimed, Claim};
use crate::instructions::draw::{draw_refusal, draw_with_clock, drawn, spec_winning_numbers, Draw};
use crate::instructions::initialize::{opened, Initialize};
use crate::instructions::purchase::{purchase_refusal, purchased, Purchase};
use crate::ledger::{committed, Ledger, LedgerView, LotteryAccountView};
use crate::state::lottery::Lottery;
use crate::state::ticket::Ticket;
use crate::theorems::{
    lemma_claim_keeps_order, lemma_draw_keeps_order, lemma_initialize_keeps_order,
    lemma_purchase_keeps_order,
};
use vstd::prelude::*;

verus! {

/// What opening round `id` by `caller` makes of the ledger, once the round's
/// address `key` and its `bump` are known.
///
/// It fails with `AlreadyExists` where a round lives at `key`, and with
/// `InsufficientFunds` where the caller cannot fund the balance that the
/// ledger keeps in the record. Else the caller has paid that balance into the
/// new record, which holds a round as [`opened`].
pub open spec fn spec_initialize_at(
    ledger: LedgerView,
    caller: Seq<u8>,
    id: u64,
    key: Seq<u8>,
    bump: u8,
) -> Result<LedgerView, ErrorCode> {
    if ledger.lotteries.contains_key(key) {
        Err(ErrorCode::AlreadyExists)
    } else if ledger.balance(caller) < ledger.rent_minimum {
        Err(ErrorCode::InsufficientFunds)
    } else {
        Ok(
            LedgerView {
                balances: ledger.balances.insert(
                    caller,
                    (ledger.balance(caller) - ledger.rent_minimum) as u64,
                ),
                lotteries: ledger.lotteries.insert(
                    key,
                    LotteryAccountView {
                        lamports: ledger.rent_minimum,
                        data: opened(caller, id, bump),
                    },
                ),
                ..ledger
            },
        )
    }
}

/// What the purchase of a ticket with `numbers` by `caller` makes of the
/// ledger, once the address `key` of the round and the address `ticket_key`
/// of the caller's ticket in it, with its `bump`, are known.
///
/// It fails with `AccountNotInitialized` where no round lives at `key`, with
/// `AlreadyExists` where a ticket lives at `ticket_key`, and then as
/// [`purchase_refusal`] says. Else the ticket is on the ledger, the round is
/// as [`purchased`], and the price has moved from the caller to the round's
/// escrow.
pub open spec fn spec_purchase_at(
    ledger: LedgerView,
    caller: Seq<u8>,
    numbers: [u8; 6],
    key: Seq<u8>,
    ticket_key: Seq<u8>,
    bump: u8,
) -> Result<LedgerView, ErrorCode> {
    if !ledger.lotteries.contains_key(key) {
        Err(ErrorCode::AccountNotInitialized)
    } else if ledger.tickets.contains_key(ticket_key) {
        Err(ErrorCode::AlreadyExists)
    } else {
        let round = ledger.lotteries[key];
        match purchase_refusal(round.data, numbers@, ledger.balance(caller), round.lamports) {
            Some(e) => Err(e),
            None => Ok(
                LedgerView {
                    balances: ledger.balances.insert(
                        caller,
                        (ledger.balance(caller) - round.data.price) as u64,
                    ),
                    lotteries: ledger.lotteries.insert(
                        key,
                        LotteryAccountView {
                            lamports: (round.lamports + round.data.price) as u64,
                            data: purchased(round.data, ticket_key),
                        },
                    ),
                    tickets: ledger.tickets.insert(ticket_key, Ticket { numbers, bump }),
                    ..ledger
                },
            ),
        }
    }
}

/// What the draw of the round at `key` by `caller` makes of the ledger.
///
/// It fails with `AccountNotInitialized` where no round lives at `key`, and
/// then as [`draw_refusal`] says. Else the round is as [`drawn`] with the
/// numbers that the ledger's clock yields.
pub open spec fn spec_draw_at(ledger: LedgerView, caller: Seq<u8>, key: Seq<u8>) -> Result<
    LedgerView,
    ErrorCode,
> {
    if !ledger.lotteries.contains_key(key) {
        Err(ErrorCode::AccountNotInitialized)
    } else {
        let round = ledger.lotteries[key];
        match draw_refusal(round.data, caller) {
            Some(e) => Err(e),
            None => Ok(
                LedgerView {
                    lotteries: ledger.lotteries.insert(
                        key,
                        LotteryAccountView {
                            lamports: round.lamports,
                            data: drawn(round.data, spec_winning_numbers(ledger.clock)),
                        },
                    ),
                    ..ledger
                },
            ),
        }
    }
}

/// What the claim of the round at `key` by `caller`, whose ticket in it has
/// the address `ticket_key`, makes of the ledger.
///
/// It fails with `AccountNotInitialized` where no round lives at `key` or no
/// ticket at `ticket_key`, and then as [`claim_refusal`] says. Else the round
/// is as [`claimed`], and the escrow above the balance that the ledger keeps
/// back has moved to the caller.
pub open spec fn spec_claim_at(
    ledger: LedgerView,
    caller: Seq<u8>,
    key: Seq<u8>,
    ticket_key: Seq<u8>,
) -> Result<LedgerView, ErrorCode> {
    if !ledger.lotteries.contains_key(key) {
        Err(ErrorCode::AccountNotInitialized)
    } else if !ledger.tickets.contains_key(ticket_key) {
        Err(ErrorCode::AccountNotInitialized)
    } else {
        let round = ledger.lotteries[key];
        let payout = available(round.lamports, ledger.rent_minimum);
        match claim_refusal(
            round.data,
            ledger.tickets[ticket_key].numbers@,
            round.lamports,
            ledger.balance(caller),
            ledger.rent_minimum,
        ) {
            Some(e) => Err(e),
            None => Ok(
                LedgerView {
                    balances: ledger.balances.insert(
                        caller,
                        (ledger.balance(caller) + payout) as u64,
                    ),
                    lotteries: ledger.lotteries.insert(
                        key,
                        LotteryAccountView {
                            lamports: (round.lamports - payout) as u64,
                            data: claimed(round.data),
                        },
                    ),
                    ..ledger
                },
            ),
        }
    }
}

/// What opening round `id` by `caller` makes of the ledger: `InvalidSeeds`
/// where the round has no address, and else what [`spec_initialize_at`] says
/// for the address derived from `id`.
pub open spec fn spec_initialize(ledger: LedgerView, caller: Seq<u8>, id: u64) -> Result<
    LedgerView,
    ErrorCode,
> {
    match spec_lottery_address(ledger.program_id, id) {
        None => Err(ErrorCode::InvalidSeeds),
        Some((key, bump)) => spec_initialize_at(ledger, caller, id, key, bump),
    }
}

/// What the purchase of a ticket with `numbers` in round `id` by `caller`
/// makes of the ledger: `InvalidSeeds` where the round or the ticket has no
/// address, and else what [`spec_purchase_at`] says for the address derived
/// from `id` and the ticket address derived from it and the caller.
pub open spec fn spec_purchase(
    ledger: LedgerView,
    caller: Seq<u8>,
    id: u64,
    numbers: [u8; 6],
) -> Result<LedgerView, ErrorCode> {
    match spec_lottery_address(ledger.program_id, id) {
        None => Err(ErrorCode::InvalidSeeds),
        Some((key, _)) => match spec_ticket_address(ledger.program_id, key, caller) {
            None => Err(ErrorCode::InvalidSeeds),
            Some((ticket_key, bump)) => spec_purchase_at(
                ledger,
                caller,
                numbers,
                key,
                ticket_key,
                bump,
            ),
        },
    }
}

/// What the draw of round `id` by `caller` makes of the ledger:
/// `InvalidSeeds` where the round has no address, and else what
/// [`spec_draw_at`] says for the address derived from `id`.
pub open spec fn spec_draw(ledger: LedgerView, caller: Seq<u8>, id: u64) -> Result<
    LedgerView,
    ErrorCode,
> {
    match spec_lottery_address(ledger.program_id, id) {
        None => Err(ErrorCode::InvalidSeeds),
        Some((key, _)) => spec_draw_at(ledger, caller, key),
    }
}

/// What the claim of round `id` by `caller` makes of the ledger:
/// `InvalidSeeds` where the round or the ticket has no address, and else what
/// [`spec_claim_at`] says for the address derived from `id` and the ticket
/// address derived from it and the caller.
pub open spec fn spec_claim(ledger: LedgerView, caller: Seq<u8>, id: u64) -> Result<
    LedgerView,
    ErrorCode,
> {
    match spec_lottery_address(ledger.program_id, id) {
        None => Err(ErrorCode::InvalidSeeds),
        Some((key, _)) => match spec_ticket_address(ledger.program_id, key, caller) {
            None => Err(ErrorCode::InvalidSeeds),
            Some((ticket_key, _)) => spec_claim_at(ledger, caller, key, ticket_key),
        },
    }
}

/// Opens round `id` for `caller` in the record at `key`, whose bump is
/// `bump`. The caller becomes the authority of the round and funds the
/// balance that the ledger keeps in the record.
pub fn initialize_at(
    ledger: &mut Ledger,
    caller: &Address,
    id: u64,
    key: &Address,
    bump: u8,
) -> (done: Result<(), ErrorCode>)
    requires
        old(ledger).wf(),
    ensures
        final(ledger).wf(),
        committed(
            old(ledger)@,
            final(ledger)@,
            done,
            spec_initialize_at(old(ledger)@, caller@, id, key@, bump),
        ),
{
    if ledger.has_lottery(key) {
        return Err(ErrorCode::AlreadyExists);
    }
    let mut authority = Signer { key: *caller, lamports: ledger.balance(caller) };
    let mut reserve: u64 = 0;
    match transfer(&mut authority.lamports, &mut reserve, ledger.rent_minimum()) {
        Err(e) => {
            return Err(e);
        },
        Ok(()) => {},
    }
    let mut ctx = Initialize {
        authority,
        lottery: Account { key: *key, lamports: reserve, data: Lottery::blank() },
        bump,
    };
    match crate::instructions::initialize::handler(&mut ctx, id) {
        Err(e) => {
            return Err(e);
        },
        Ok(()) => {},
    }
    ledger.store_balance(ctx.authority.key, ctx.authority.lamports);
    ledger.store_lottery(ctx.lottery);
    proof {
        let next = spec_initialize_at(old(ledger)@, caller@, id, key@, bump)->Ok_0;
        assert(ledger@.balances =~= next.balances);
        assert(ledger@.lotteries =~= next.lotteries);
        lemma_initialize_keeps_order(old(ledger)@, caller@, id, key@, bump);
    }
    Ok(())
}

/// Sells `caller` a ticket with `numbers` in the round at `key`. The ticket
/// is written into the record at `ticket_key`, whose bump is `bump`.
pub fn purchase_at(
    ledger: &mut Ledger,
    caller: &Address,
    numbers: [u8; 6],
    key: &Address,
    ticket_key: &Address,
    bump: u8,
) -> (done: Result<(), ErrorCode>)
    requires
        old(ledger).wf(),
    ensures
        final(ledger).wf(),
        committed(
            old(ledger)@,
            final(ledger)@,
            done,
            spec_purchase_at(old(ledger)@, caller@, numbers, key@, ticket_key@, bump),
        ),
{
    let lottery = match ledger.lottery(key) {
        Some(account) => account,
        None => {
            return Err(ErrorCode::AccountNotInitialized);
        },
    };
    if ledger.has_ticket(ticket_key) {
        return Err(ErrorCode::AlreadyExists);
    }
    let id = lottery.data.id;
    let mut ctx = Purchase {
        authority: Signer { key: *caller, lamports: ledger.balance(caller) },
        lottery,
        ticket: Account {
            key: *ticket_key,
            lamports: 0,
            data: Ticket { numbers: [0u8;6], bump: 0 },
        },
        bump,
    };
    match crate::instructions::purchase::handler(&mut ctx, id, numbers) {
        Err(e) => {
            return Err(e);
        },
        Ok(()) => {},
    }
    ledger.store_balance(ctx.authority.key, ctx.authority.lamports);
    ledger.store_lottery(ctx.lottery);
    ledger.store_ticket(ctx.ticket);
    proof {
        let next = spec_purchase_at(old(ledger)@, caller@, numbers, key@, ticket_key@, bump)->Ok_0;
        assert(ledger@.balances =~= next.balances);
        assert(ledger@.lotteries =~= next.lotteries);
        assert(ledger@.tickets =~= next.tickets);
        lemma_purchase_keeps_order(old(ledger)@, caller@, numbers, key@, ticket_key@, bump);
    }
    Ok(())
}

/// Draws the round at `key` for `caller` with the entropy of the ledger's
/// clock.
pub fn draw_at(ledger: &mut Ledger, caller: &Address, key: &Address) -> (done: Result<
    (),
    ErrorCode,
>)
    requires
        old(ledger).wf(),
    ensures
        final(ledger).wf(),
        committed(old(ledger)@, final(ledger)@, done, spec_draw_at(old(ledger)@, caller@, key@)),
{
    let lottery = match ledger.lottery(key) {
        Some(account) => account,
        None => {
            return Err(ErrorCode::AccountNotInitialized);
        },
    };
    let mut ctx = Draw {
        authority: Signer { key: *caller, lamports: ledger.balance(caller) },
        lottery,
    };
    let clock = ledger.clock();
    match draw_with_clock(&mut ctx, &clock) {
        Err(e) => {
            return Err(e);
        },
        Ok(()) => {},
    }
    ledger.store_lottery(ctx.lottery);
    proof {
        let next = spec_draw_at(old(ledger)@, caller@, key@)->Ok_0;
        assert(ledger@.lotteries =~= next.lotteries);
        lemma_draw_keeps_order(old(ledger)@, caller@, key@);
    }
    Ok(())
}

/// Pays the escrow of the round at `key` to `caller`, if the ticket at
/// `ticket_key` matches the draw.
pub fn claim_at(
    ledger: &mut Ledger,
    caller: &Address,
    key: &Address,
    ticket_key: &Address,
) -> (done: Result<(), ErrorCode>)
    requires
        old(ledger).wf(),
    ensures
        final(ledger).wf(),
        committed(
            old(ledger)@,
            final(ledger)@,
            done,
            spec_claim_at(old(ledger)@, caller@, key@, ticket_key@),
        ),
{
    let lottery = match ledger.lottery(key) {
        Some(account) => account,
        None => {
            return Err(ErrorCode::AccountNotInitialized);
        },
    };
    let ticket = match ledger.ticket(ticket_key) {
        Some(ticket) => ticket,
        None => {
            return Err(ErrorCode::AccountNotInitialized);
        },
    };
    let id = lottery.data.id;
    let mut ctx = Claim {
        authority: Signer { key: *caller, lamports: ledger.balance(caller) },
        lottery,
        ticket: Account { key: *ticket_key, lamports: 0, data: ticket },
    };
    match crate::instructions::claim::handler(&mut ctx, id, ledger.rent_minimum()) {
        Err(e) => {
            return Err(e);
        },
        Ok(()) => {},
    }
    ledger.store_balance(ctx.authority.key, ctx.authority.lamports);
    ledger.store_lottery(ctx.lottery);
    proof {
        let next = spec_claim_at(old(ledger)@, caller@, key@, ticket_key@)->Ok_0;
        assert(ledger@.balances =~= next.balances);
        assert(ledger@.lotteries =~= next.lotteries);
        lemma_claim_keeps_order(old(ledger)@, caller@, key@, ticket_key@);
    }
    Ok(())
}

/// Opens round `id` for `caller`, who becomes its authority and funds the
/// balance that the ledger keeps in the round's record. The record lies at
/// the address derived from `id`.
pub fn initialize(ledger: &mut Ledger, caller: &Address, id: u64) -> (done: Result<(), ErrorCode>)
    requires
        old(ledger).wf(),
    ensures
        final(ledger).wf(),
        committed(old(ledger)@, final(ledger)@, done, spec_initialize(old(ledger)@, caller@, id)),
{
    let program_id = ledger.program_id();
    match lottery_address(&program_id, id) {
        None => Err(ErrorCode::InvalidSeeds),
        Some((key, bump)) => initialize_at(ledger, caller, id, &key, bump),
    }
}

/// Sells `caller` a ticket with `numbers` in round `id`. The ticket lies at
/// the address derived from the round's address and the caller's, so that a
/// second purchase by the same caller finds it there.
pub fn purchase(ledger: &mut Ledger, caller: &Address, id: u64, numbers: [u8; 6]) -> (done: Result<
    (),
    ErrorCode,
>)
    requires
        old(ledger).wf(),
    ensures
        final(ledger).wf(),
        committed(
            old(ledger)@,
            final(ledger)@,
            done,
            spec_purchase(old(ledger)@, caller@, id, numbers),
        ),
{
    let program_id = ledger.program_id();
    match lottery_address(&program_id, id) {
        None => Err(ErrorCode::InvalidSeeds),
        Some((key, _)) => match ticket_address(&program_id, &key, caller) {
            None => Err(ErrorCode::InvalidSeeds),
            Some((ticket_key, bump)) => purchase_at(
                ledger,
                caller,
                numbers,
                &key,
                &ticket_key,
                bump,
            ),
        },
    }
}

/// Draws round `id` for `caller` with the entropy of the ledger's clock.
pub fn draw(ledger: &mut Ledger, caller: &Address, id: u64) -> (done: Result<(), ErrorCode>)
    requires
        old(ledger).wf(),
    ensures
        final(ledger).wf(),
        committed(old(ledger)@, final(ledger)@, done, spec_draw(old(ledger)@, caller@, id)),
{
    let program_id = ledger.program_id();
    match lottery_address(&program_id, id) {
        None => Err(ErrorCode::InvalidSeeds),
        Some((key, _)) => draw_at(ledger, caller, &key),
    }
}

/// Pays the escrow of round `id` to `caller`, if the caller's ticket matches
/// the draw. The ticket is looked up at the address derived from the round's
/// address and the caller's: a caller can only present a ticket of their own.
pub fn claim(ledger: &mut Ledger, caller: &Address, id: u64) -> (done: Result<(), ErrorCode>)
    requires
        old(ledger).wf(),
    ensures
        final(ledger).wf(),
        committed(old(ledger)@, final(ledger)@, done, spec_claim(old(ledger)@, caller@, id)),
{
    let program_id = ledger.program_id();
    match lottery_address(&program_id, id) {
        None => Err(ErrorCode::InvalidSeeds),
        Some((key, _)) => match ticket_address(&program_id, &key, caller) {
            None => Err(ErrorCode::InvalidSeeds),
            Some((ticket_key, _)) => claim_at(ledger, caller, &key, &ticket_key),
        },
    }
}

} // verus!
