//! What holds of the lottery across operations.
//!
//! The statements are about [`LedgerView`], the ledger as a mathematical
//! value, and about the functions that fix what each operation does to it.
//! Every operation of [`crate::lottery`] is proved to act as those functions
//! say, so what is proved here holds of every run.

use crate::address::{spec_lottery_address, spec_ticket_address};
use crate::constants::{MAX_TICKETS, TICKET_PRICE};
use crate::error::{ErrorCategory, ErrorCode};
use crate::instructions::claim::available;
use crate::instructions::draw::spec_winning_numbers;
use crate::instructions::initialize::opened;
use crate::ledger::{committed, spec_airdrop, LedgerView};
use crate::lottery::{
    spec_claim, spec_claim_at, spec_draw, spec_draw_at, spec_initialize,
    spec_initialize_at, spec_purchase, spec_purchase_at,
};
use crate::state::lottery::valid_draw;
use crate::state::ticket::valid_ticket_numbers;
use crate::sysvar::Clock;
use vstd::prelude::*;

verus! {

/// Opening a round keeps the ledger well formed.
pub proof fn lemma_initialize_keeps_order(
    ledger: LedgerView,
    caller: Seq<u8>,
    id: u64,
    key: Seq<u8>,
    bump: u8,
)
    requires
        ledger.well_formed(),
        spec_initialize_at(ledger, caller, id, key, bump) is Ok,
    ensures
        spec_initialize_at(ledger, caller, id, key, bump)->Ok_0.well_formed(),
{
    let next = spec_initialize_at(ledger, caller, id, key, bump)->Ok_0;
    assert forall|k: Seq<u8>| #[trigger] next.lotteries.contains_key(k) implies next.round_in_order(
        k,
    ) by {
        if ledger.lotteries.contains_key(k) {
            assert(ledger.round_in_order(k));
        }
    }
}

/// A purchase keeps the ledger well formed: in every round the counter equals
/// the number of holders and does not exceed the capacity, and every holder
/// is a ticket on the ledger.
pub proof fn lemma_purchase_keeps_order(
    ledger: LedgerView,
    caller: Seq<u8>,
    numbers: [u8; 6],
    key: Seq<u8>,
    ticket_key: Seq<u8>,
    bump: u8,
)
    requires
        ledger.well_formed(),
        spec_purchase_at(ledger, caller, numbers, key, ticket_key, bump) is Ok,
    ensures
        spec_purchase_at(ledger, caller, numbers, key, ticket_key, bump)->Ok_0.well_formed(),
{
    let next = spec_purchase_at(ledger, caller, numbers, key, ticket_key, bump)->Ok_0;
    assert forall|k: Seq<u8>| #[trigger] next.lotteries.contains_key(k) implies next.round_in_order(
        k,
    ) by {
        assert(ledger.lotteries.contains_key(k));
        assert(ledger.round_in_order(k));
        let before = ledger.lotteries[k].data;
        let after = next.lotteries[k].data;
        assert forall|i: int| 0 <= i < after.holders.len() implies next.tickets.contains_key(
            #[trigger] after.holders[i],
        ) by {
            if i < before.holders.len() {
                assert(ledger.tickets.contains_key(before.holders[i]));
            }
        }
    }
    assert forall|k: Seq<u8>| #[trigger]
        next.tickets.contains_key(k) implies next.tickets[k].well_formed() by {
        if ledger.tickets.contains_key(k) {
            assert(ledger.tickets[k].well_formed());
        }
    }
}

/// A draw keeps the ledger well formed: the numbers it seals are six and lie
/// in 1..=10.
pub proof fn lemma_draw_keeps_order(ledger: LedgerView, caller: Seq<u8>, key: Seq<u8>)
    requires
        ledger.well_formed(),
        spec_draw_at(ledger, caller, key) is Ok,
    ensures
        spec_draw_at(ledger, caller, key)->Ok_0.well_formed(),
{
    let next = spec_draw_at(ledger, caller, key)->Ok_0;
    assert forall|k: Seq<u8>| #[trigger] next.lotteries.contains_key(k) implies next.round_in_order(
        k,
    ) by {
        assert(ledger.lotteries.contains_key(k));
        assert(ledger.round_in_order(k));
    }
}

/// A claim keeps the ledger well formed.
pub proof fn lemma_claim_keeps_order(
    ledger: LedgerView,
    caller: Seq<u8>,
    key: Seq<u8>,
    ticket_key: Seq<u8>,
)
    requires
        ledger.well_formed(),
        spec_claim_at(ledger, caller, key, ticket_key) is Ok,
    ensures
        spec_claim_at(ledger, caller, key, ticket_key)->Ok_0.well_formed(),
{
    let next = spec_claim_at(ledger, caller, key, ticket_key)->Ok_0;
    assert forall|k: Seq<u8>| #[trigger] next.lotteries.contains_key(k) implies next.round_in_order(
        k,
    ) by {
        assert(ledger.lotteries.contains_key(k));
        assert(ledger.round_in_order(k));
    }
}

/// One call that changes the ledger: one of the four operations of the
/// lottery, a credit from outside, or a new reading of the clock.
pub enum Operation {
    Initialize { caller: Seq<u8>, id: u64 },
    Purchase { caller: Seq<u8>, id: u64, numbers: [u8; 6] },
    Draw { caller: Seq<u8>, id: u64 },
    Claim { caller: Seq<u8>, id: u64 },
    Airdrop { holder: Seq<u8>, lamports: u64 },
    SetClock { clock: Clock },
}

impl Operation {
    /// The call is one of the four operations of the lottery.
    pub open spec fn is_lottery_operation(self) -> bool {
        self is Initialize || self is Purchase || self is Draw || self is Claim
    }
}

/// What the operation makes of the ledger, or why it is refused.
pub open spec fn spec_apply(ledger: LedgerView, operation: Operation) -> Result<
    LedgerView,
    ErrorCode,
> {
    match operation {
        Operation::Initialize { caller, id } => spec_initialize(ledger, caller, id),
        Operation::Purchase { caller, id, numbers } => spec_purchase(ledger, caller, id, numbers),
        Operation::Draw { caller, id } => spec_draw(ledger, caller, id),
        Operation::Claim { caller, id } => spec_claim(ledger, caller, id),
        Operation::Airdrop { holder, lamports } => spec_airdrop(ledger, holder, lamports),
        Operation::SetClock { clock } => Ok(LedgerView { clock, ..ledger }),
    }
}

/// The ledger after the operation was tried: changed as the operation says
/// where it went through, and unchanged where it was refused.
pub open spec fn spec_step(ledger: LedgerView, operation: Operation) -> LedgerView {
    match spec_apply(ledger, operation) {
        Ok(next) => next,
        Err(_) => ledger,
    }
}

/// The ledger after the operations were tried one after the other.
pub open spec fn spec_run(ledger: LedgerView, operations: Seq<Operation>) -> LedgerView
    decreases operations.len(),
{
    if operations.len() == 0 {
        ledger
    } else {
        spec_step(spec_run(ledger, operations.drop_last()), operations.last())
    }
}

/// Whatever operation is tried, with whatever outcome, a well-formed ledger
/// stays well formed.
pub proof fn theorem_step_keeps_order(ledger: LedgerView, operation: Operation)
    requires
        ledger.well_formed(),
    ensures
        spec_step(ledger, operation).well_formed(),
{
    if spec_apply(ledger, operation) is Ok {
        match operation {
            Operation::Initialize { caller, id } => {
                let (key, bump) = spec_lottery_address(ledger.program_id, id)->Some_0;
                lemma_initialize_keeps_order(ledger, caller, id, key, bump);
            },
            Operation::Purchase { caller, id, numbers } => {
                let (key, _) = spec_lottery_address(ledger.program_id, id)->Some_0;
                let (ticket_key, bump) = spec_ticket_address(
                    ledger.program_id,
                    key,
                    caller,
                )->Some_0;
                lemma_purchase_keeps_order(ledger, caller, numbers, key, ticket_key, bump);
            },
            Operation::Draw { caller, id } => {
                let (key, _) = spec_lottery_address(ledger.program_id, id)->Some_0;
                lemma_draw_keeps_order(ledger, caller, key);
            },
            Operation::Claim { caller, id } => {
                let (key, _) = spec_lottery_address(ledger.program_id, id)->Some_0;
                let (ticket_key, _) = spec_ticket_address(ledger.program_id, key, caller)->Some_0;
                lemma_claim_keeps_order(ledger, caller, key, ticket_key);
            },
            Operation::Airdrop { holder, lamports } => {
                let next = spec_step(ledger, operation);
                assert forall|k: Seq<u8>| #[trigger]
                    next.lotteries.contains_key(k) implies next.round_in_order(k) by {
                    assert(ledger.round_in_order(k));
                }
            },
            Operation::SetClock { clock } => {
                let next = spec_step(ledger, operation);
                assert forall|k: Seq<u8>| #[trigger]
                    next.lotteries.contains_key(k) implies next.round_in_order(k) by {
                    assert(ledger.round_in_order(k));
                }
            },
        }
    }
}

/// After any sequence of calls on a well-formed ledger, every round on it
/// counts exactly the tickets it lists, and has sold at most 100.
pub proof fn theorem_counter_matches_holders(
    ledger: LedgerView,
    operations: Seq<Operation>,
    key: Seq<u8>,
)
    requires
        ledger.well_formed(),
        spec_run(ledger, operations).lotteries.contains_key(key),
    ensures
        spec_run(ledger, operations).well_formed(),
        spec_run(ledger, operations).lotteries[key].data.sold == spec_run(
            ledger,
            operations,
        ).lotteries[key].data.holders.len(),
        spec_run(ledger, operations).lotteries[key].data.sold <= MAX_TICKETS,
{
    lemma_run_keeps_order(ledger, operations);
    assert(spec_run(ledger, operations).round_in_order(key));
}

/// Every ledger that can be reached from an empty one is well formed.
pub proof fn theorem_reachable_ledgers_are_well_formed(
    program_id: Seq<u8>,
    rent_minimum: u64,
    operations: Seq<Operation>,
)
    ensures
        spec_run(LedgerView::empty(program_id, rent_minimum), operations).well_formed(),
{
    lemma_run_keeps_order(LedgerView::empty(program_id, rent_minimum), operations);
}

/// Any sequence of operations keeps a well-formed ledger well formed.
pub proof fn lemma_run_keeps_order(ledger: LedgerView, operations: Seq<Operation>)
    requires
        ledger.well_formed(),
    ensures
        spec_run(ledger, operations).well_formed(),
    decreases operations.len(),
{
    if operations.len() > 0 {
        lemma_run_keeps_order(ledger, operations.drop_last());
        theorem_step_keeps_order(spec_run(ledger, operations.drop_last()), operations.last());
    }
}

/// Whatever operation is tried, a round that is on the ledger stays there and
/// only advances: its tickets are only added to, its counter never falls, its
/// authority, identifier and price stay, and once it is closed, has numbers
/// or is claimed, it stays so with the same numbers.
pub proof fn theorem_step_advances_rounds(
    ledger: LedgerView,
    operation: Operation,
    key: Seq<u8>,
)
    requires
        ledger.well_formed(),
        ledger.lotteries.contains_key(key),
    ensures
        spec_step(ledger, operation).lotteries.contains_key(key),
        ledger.lotteries[key].data.advances_to(spec_step(ledger, operation).lotteries[key].data),
{
    let before = ledger.lotteries[key].data;
    let after = spec_step(ledger, operation).lotteries[key].data;
    assert(ledger.round_in_order(key));
    assert(before.holders.take(before.holders.len() as int) =~= before.holders);
    if spec_apply(ledger, operation) is Ok {
        match operation {
            Operation::Purchase { caller, id, numbers } => {
                assert(after.holders.take(before.holders.len() as int) =~= before.holders);
            },
            _ => {},
        }
    }
}

/// After any sequence of operations, a round that was on the ledger before is
/// still there and has only advanced.
pub proof fn theorem_run_advances_rounds(
    ledger: LedgerView,
    operations: Seq<Operation>,
    key: Seq<u8>,
)
    requires
        ledger.well_formed(),
        ledger.lotteries.contains_key(key),
    ensures
        spec_run(ledger, operations).lotteries.contains_key(key),
        ledger.lotteries[key].data.advances_to(spec_run(ledger, operations).lotteries[key].data),
    decreases operations.len(),
{
    let before = ledger.lotteries[key].data;
    if operations.len() == 0 {
        assert(before.holders.take(before.holders.len() as int) =~= before.holders);
    } else {
        let middle = spec_run(ledger, operations.drop_last());
        theorem_run_advances_rounds(ledger, operations.drop_last(), key);
        lemma_run_keeps_order(ledger, operations.drop_last());
        theorem_step_advances_rounds(middle, operations.last(), key);
        let between = middle.lotteries[key].data;
        let after = spec_run(ledger, operations).lotteries[key].data;
        assert(after.holders.take(before.holders.len() as int) =~= between.holders.take(
            before.holders.len() as int,
        ));
    }
}

/// Whatever operation is tried, a ticket that is on the ledger stays there
/// as it is: tickets are written once and never changed or removed.
pub proof fn theorem_step_keeps_tickets(ledger: LedgerView, operation: Operation, key: Seq<u8>)
    requires
        ledger.tickets.contains_key(key),
    ensures
        spec_step(ledger, operation).tickets.contains_key(key),
        spec_step(ledger, operation).tickets[key] == ledger.tickets[key],
{
}

/// After any sequence of operations, a ticket that was on the ledger before
/// is still there as it was.
pub proof fn theorem_run_keeps_tickets(
    ledger: LedgerView,
    operations: Seq<Operation>,
    key: Seq<u8>,
)
    requires
        ledger.tickets.contains_key(key),
    ensures
        spec_run(ledger, operations).tickets.contains_key(key),
        spec_run(ledger, operations).tickets[key] == ledger.tickets[key],
    decreases operations.len(),
{
    if operations.len() > 0 {
        theorem_run_keeps_tickets(ledger, operations.drop_last(), key);
        theorem_step_keeps_tickets(
            spec_run(ledger, operations.drop_last()),
            operations.last(),
            key,
        );
    }
}

/// Rounds come from openings alone: where a round is on the ledger after an
/// operation and was not before, the operation was the opening of that round,
/// and the round is as opened, with the caller as its authority and with the
/// balance that the ledger keeps in it.
pub proof fn theorem_rounds_come_from_openings(
    ledger: LedgerView,
    operation: Operation,
    key: Seq<u8>,
)
    requires
        !ledger.lotteries.contains_key(key),
        spec_step(ledger, operation).lotteries.contains_key(key),
    ensures
        operation is Initialize,
        spec_lottery_address(ledger.program_id, operation->Initialize_id) matches Some((k, bump))
            && k == key && spec_step(ledger, operation).lotteries[key].data == opened(
            operation->Initialize_caller,
            operation->Initialize_id,
            bump,
        ),
        spec_step(ledger, operation).lotteries[key].lamports == ledger.rent_minimum,
{
}

/// What an operation of the lottery moves, it moves between the caller and
/// one round: the caller's balance and the round's escrow add up to the same
/// amount before and after, and no other balance and no other escrow changes.
pub proof fn theorem_value_is_conserved(
    ledger: LedgerView,
    operation: Operation,
    other_holder: Seq<u8>,
    other_round: Seq<u8>,
)
    requires
        operation.is_lottery_operation(),
        spec_apply(ledger, operation) is Ok,
    ensures
        ({
            let next = spec_step(ledger, operation);
            let (caller, id) = match operation {
                Operation::Initialize { caller, id } => (caller, id),
                Operation::Purchase { caller, id, numbers } => (caller, id),
                Operation::Draw { caller, id } => (caller, id),
                Operation::Claim { caller, id } => (caller, id),
                _ => (Seq::empty(), 0),
            };
            let key = spec_lottery_address(ledger.program_id, id)->Some_0.0;
            let escrow_before: int = if ledger.lotteries.contains_key(key) {
                ledger.lotteries[key].lamports as int
            } else {
                0
            };
            &&& next.lotteries.contains_key(key)
            &&& next.balance(caller) + next.lotteries[key].lamports == ledger.balance(caller)
                + escrow_before
            &&& other_holder != caller ==> next.balance(other_holder) == ledger.balance(
                other_holder,
            )
            &&& other_round != key && ledger.lotteries.contains_key(other_round)
                ==> next.lotteries.contains_key(other_round) && next.lotteries[other_round]
                == ledger.lotteries[other_round]
        }),
{
}

/// A ticket with a number outside 1..=10, or with a number that occurs twice,
/// is never sold: the purchase fails and the ledger stays as it was. Where
/// the round exists and is on sale, and the caller holds no ticket of it yet,
/// the failure is `LotteryInvalidNumbers`, an invalid input.
pub proof fn theorem_invalid_numbers_are_refused(
    ledger: LedgerView,
    caller: Seq<u8>,
    id: u64,
    numbers: [u8; 6],
    after: LedgerView,
    done: Result<(), ErrorCode>,
)
    requires
        !valid_ticket_numbers(numbers@),
        committed(ledger, after, done, spec_purchase(ledger, caller, id, numbers)),
    ensures
        done is Err,
        after == ledger,
        ({
            &&& spec_lottery_address(ledger.program_id, id) matches Some((key, _))
            &&& ledger.lotteries.contains_key(key)
            &&& ledger.lotteries[key].data.is_active
            &&& spec_ticket_address(ledger.program_id, key, caller) matches Some((ticket, _))
            &&& !ledger.tickets.contains_key(ticket)
        }) ==> done == Err::<(), ErrorCode>(ErrorCode::LotteryInvalidNumbers)
            && ErrorCode::LotteryInvalidNumbers.spec_category() == ErrorCategory::InvalidInput,
{
}

/// One round per identifier: after a round was opened, every further
/// opening under the same identifier fails with `AlreadyExists`, whoever asks,
/// and leaves the round as it is.
pub proof fn theorem_one_round_per_identifier(
    ledger: LedgerView,
    caller: Seq<u8>,
    id: u64,
    again: Seq<u8>,
)
    requires
        spec_initialize(ledger, caller, id) is Ok,
    ensures
        ({
            let opened = spec_initialize(ledger, caller, id)->Ok_0;
            &&& spec_initialize(opened, again, id) == Err::<LedgerView, ErrorCode>(
                ErrorCode::AlreadyExists,
            )
            &&& spec_step(opened, Operation::Initialize { caller: again, id }) == opened
            &&& ErrorCode::AlreadyExists.spec_category() == ErrorCategory::AlreadyExists
        }),
{
}

/// One participant holds at most one ticket of a round: after a purchase
/// went through, every further purchase by the same participant in the same
/// round fails with `AlreadyExists`, whatever its numbers, and the round has
/// sold exactly one ticket more than before the first.
pub proof fn theorem_one_ticket_per_participant(
    ledger: LedgerView,
    caller: Seq<u8>,
    id: u64,
    first: [u8; 6],
    second: [u8; 6],
)
    requires
        spec_purchase(ledger, caller, id, first) is Ok,
    ensures
        ({
            let key = spec_lottery_address(ledger.program_id, id)->Some_0.0;
            let bought = spec_purchase(ledger, caller, id, first)->Ok_0;
            &&& spec_purchase(bought, caller, id, second) == Err::<LedgerView, ErrorCode>(
                ErrorCode::AlreadyExists,
            )
            &&& spec_step(bought, Operation::Purchase { caller, id, numbers: second }) == bought
            &&& bought.lotteries[key].data.sold == ledger.lotteries[key].data.sold + 1
        }),
{
}

/// A round without tickets cannot be drawn: on a well-formed ledger, the
/// draw of an existing round that sold nothing, asked by its authority, fails
/// with `LotteryNoTicketsSold`, for want of demand.
pub proof fn theorem_draw_needs_demand(ledger: LedgerView, caller: Seq<u8>, id: u64)
    requires
        ledger.well_formed(),
        spec_lottery_address(ledger.program_id, id) matches Some((key, _))
            && ledger.lotteries.contains_key(key) && ledger.lotteries[key].data.sold == 0
            && ledger.lotteries[key].data.authority == caller,
    ensures
        spec_draw(ledger, caller, id) == Err::<LedgerView, ErrorCode>(
            ErrorCode::LotteryNoTicketsSold,
        ),
        ErrorCode::LotteryNoTicketsSold.spec_category() == ErrorCategory::NoDemand,
{
    let key = spec_lottery_address(ledger.program_id, id)->Some_0.0;
    assert(ledger.round_in_order(key));
}

/// The draw of an existing open round that sold a ticket, asked by its
/// authority, goes through.
pub proof fn theorem_draw_goes_through(ledger: LedgerView, caller: Seq<u8>, id: u64)
    requires
        spec_lottery_address(ledger.program_id, id) matches Some((key, _))
            && ledger.lotteries.contains_key(key) && ledger.lotteries[key].data.sold > 0
            && ledger.lotteries[key].data.is_active && ledger.lotteries[key].data.authority
            == caller,
    ensures
        spec_draw(ledger, caller, id) is Ok,
{
}

/// A draw seals a round once: where it goes through, the round holds six
/// numbers in 1..=10, those of the ledger's clock, and is closed; and every
/// further draw of the round fails, with `LotteryNotActive`, a failed
/// precondition, where the authority asks again.
pub proof fn theorem_draw_seals_once(
    ledger: LedgerView,
    caller: Seq<u8>,
    id: u64,
    again: Seq<u8>,
)
    requires
        spec_draw(ledger, caller, id) is Ok,
    ensures
        ({
            let key = spec_lottery_address(ledger.program_id, id)->Some_0.0;
            let sealed = spec_draw(ledger, caller, id)->Ok_0;
            &&& ledger.lotteries[key].data.is_active
            &&& !sealed.lotteries[key].data.is_active
            &&& sealed.lotteries[key].data.numbers == Some(spec_winning_numbers(ledger.clock))
            &&& valid_draw(spec_winning_numbers(ledger.clock))
            &&& spec_draw(sealed, again, id) is Err
            &&& spec_draw(sealed, caller, id) == Err::<LedgerView, ErrorCode>(
                ErrorCode::LotteryNotActive,
            )
            &&& ErrorCode::LotteryNotActive.spec_category() == ErrorCategory::PreconditionFailed
        }),
{
}

/// A claim pays the holder of the matching ticket, once: it goes through
/// only where the round is drawn and unclaimed and the caller's ticket equals
/// the drawn numbers position by position; then the round is claimed, the
/// escrow above the balance that the ledger keeps back has moved to the
/// caller, the record keeps that balance, or all it had where it had less, and
/// every further claim of the round by the caller fails with
/// `LotteryAlreadyClaimed`, a failed precondition.
pub proof fn theorem_claim_pays_once(ledger: LedgerView, caller: Seq<u8>, id: u64)
    requires
        spec_claim(ledger, caller, id) is Ok,
    ensures
        ({
            let key = spec_lottery_address(ledger.program_id, id)->Some_0.0;
            let ticket = spec_ticket_address(ledger.program_id, key, caller)->Some_0.0;
            let round = ledger.lotteries[key];
            let paid = spec_claim(ledger, caller, id)->Ok_0;
            let payout = available(round.lamports, ledger.rent_minimum);
            &&& !round.data.is_active
            &&& !round.data.is_claimed
            &&& round.data.numbers == Some(ledger.tickets[ticket].numbers@)
            &&& paid.lotteries[key].data.is_claimed
            &&& paid.lotteries[key].lamports == round.lamports - payout
            &&& paid.balance(caller) == ledger.balance(caller) + payout
            &&& round.lamports >= ledger.rent_minimum ==> paid.lotteries[key].lamports
                == ledger.rent_minimum
            &&& round.lamports < ledger.rent_minimum ==> paid.lotteries[key].lamports
                == round.lamports
            &&& spec_claim(paid, caller, id) == Err::<LedgerView, ErrorCode>(
                ErrorCode::LotteryAlreadyClaimed,
            )
            &&& ErrorCode::LotteryAlreadyClaimed.spec_category()
                == ErrorCategory::PreconditionFailed
        }),
{
}

/// Once a round is claimed, no claim of it goes through, whoever asks.
pub proof fn theorem_claimed_round_pays_nobody(ledger: LedgerView, caller: Seq<u8>, id: u64)
    requires
        ledger.well_formed(),
        spec_lottery_address(ledger.program_id, id) matches Some((key, _))
            && ledger.lotteries.contains_key(key) && ledger.lotteries[key].data.is_claimed,
    ensures
        spec_claim(ledger, caller, id) is Err,
{
    let key = spec_lottery_address(ledger.program_id, id)->Some_0.0;
    assert(ledger.round_in_order(key));
}

/// The ledger after the buyers bought a ticket of round `id` one after the
/// other, each with the numbers given, or the first refusal.
pub open spec fn spec_purchase_all(
    ledger: LedgerView,
    id: u64,
    buyers: Seq<(Seq<u8>, [u8; 6])>,
) -> Result<LedgerView, ErrorCode>
    decreases buyers.len(),
{
    if buyers.len() == 0 {
        Ok(ledger)
    } else {
        match spec_purchase_all(ledger, id, buyers.drop_last()) {
            Ok(middle) => spec_purchase(middle, buyers.last().0, id, buyers.last().1),
            Err(e) => Err(e),
        }
    }
}

/// The escrow grows by the price with each ticket: after N purchases in a
/// round went through, the round has sold N tickets more, and its escrow holds
/// N times the price more than before.
pub proof fn theorem_escrow_grows_by_price(
    ledger: LedgerView,
    id: u64,
    buyers: Seq<(Seq<u8>, [u8; 6])>,
)
    requires
        spec_lottery_address(ledger.program_id, id) matches Some((key, _))
            && ledger.lotteries.contains_key(key),
        spec_purchase_all(ledger, id, buyers) is Ok,
    ensures
        ({
            let key = spec_lottery_address(ledger.program_id, id)->Some_0.0;
            let after = spec_purchase_all(ledger, id, buyers)->Ok_0;
            &&& after.program_id == ledger.program_id
            &&& after.rent_minimum == ledger.rent_minimum
            &&& after.lotteries.contains_key(key)
            &&& after.lotteries[key].data.price == ledger.lotteries[key].data.price
            &&& after.lotteries[key].data.sold == ledger.lotteries[key].data.sold + buyers.len()
            &&& after.lotteries[key].lamports == ledger.lotteries[key].lamports + buyers.len()
                * ledger.lotteries[key].data.price
        }),
    decreases buyers.len(),
{
    if buyers.len() > 0 {
        let price = ledger.lotteries[key_of(ledger, id)].data.price;
        theorem_escrow_grows_by_price(ledger, id, buyers.drop_last());
        assert((buyers.len() - 1) * price + price == buyers.len() * price) by (nonlinear_arith);
    }
}

/// The address of round `id` on the ledger.
pub open spec fn key_of(ledger: LedgerView, id: u64) -> Seq<u8> {
    spec_lottery_address(ledger.program_id, id)->Some_0.0
}

/// From opening to payout: a round that was opened and then sold N tickets
/// holds the balance kept back by the ledger and N times the ticket price,
/// so that a claim has exactly N times the ticket price to pay.
pub proof fn theorem_escrow_is_sales_times_price(
    ledger: LedgerView,
    authority: Seq<u8>,
    id: u64,
    buyers: Seq<(Seq<u8>, [u8; 6])>,
)
    requires
        spec_initialize(ledger, authority, id) is Ok,
        spec_purchase_all(spec_initialize(ledger, authority, id)->Ok_0, id, buyers) is Ok,
    ensures
        ({
            let opened = spec_initialize(ledger, authority, id)->Ok_0;
            let after = spec_purchase_all(opened, id, buyers)->Ok_0;
            let round = after.lotteries[key_of(ledger, id)];
            &&& round.data.sold == buyers.len()
            &&& round.lamports == ledger.rent_minimum + buyers.len() * TICKET_PRICE
            &&& available(round.lamports, after.rent_minimum) == buyers.len() * TICKET_PRICE
        }),
{
    let opened = spec_initialize(ledger, authority, id)->Ok_0;
    theorem_escrow_grows_by_price(opened, id, buyers);
    assert(buyers.len() * TICKET_PRICE >= 0) by (nonlinear_arith);
}

} // verus!
