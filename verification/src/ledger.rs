//! The ledger that rounds live on: balances, round records and ticket
//! records, each under its address.
//!
//! The ledger also carries what it provides to every operation: the address
//! of the lottery program, under which record addresses are derived; its
//! clock, which a draw takes its entropy from; and the balance that it keeps
//! back in a round's record, which pays for the record's storage.

use crate::account::Account;
use crate::address::Address;
use crate::error::ErrorCode;
use crate::state::lottery::{Lottery, LotteryView};
use crate::state::ticket::Ticket;
use crate::sysvar::Clock;
use crate::table::Table;
use vstd::prelude::*;

verus! {

/// A round on the ledger as a mathematical value: its state and the balance
/// held with it, which is its escrow.
pub struct LotteryAccountView {
    pub lamports: u64,
    pub data: LotteryView,
}

/// The ledger as a mathematical value.
pub struct LedgerView {
    /// The address of the lottery program.
    pub program_id: Seq<u8>,
    /// The ledger's clock.
    pub clock: Clock,
    /// The balance that stays in a round's record when its escrow is paid out.
    pub rent_minimum: u64,
    /// The balance of each holder that has one.
    pub balances: Map<Seq<u8>, u64>,
    /// The rounds, by address.
    pub lotteries: Map<Seq<u8>, LotteryAccountView>,
    /// The tickets, by address.
    pub tickets: Map<Seq<u8>, Ticket>,
}

impl LedgerView {
    /// A ledger without balances and records, at the start of time.
    pub open spec fn empty(program_id: Seq<u8>, rent_minimum: u64) -> LedgerView {
        LedgerView {
            program_id,
            clock: Clock { slot: 0, unix_timestamp: 0 },
            rent_minimum,
            balances: Map::empty(),
            lotteries: Map::empty(),
            tickets: Map::empty(),
        }
    }

    /// What `holder` owns: nothing where the ledger knows no balance of it.
    pub open spec fn balance(self, holder: Seq<u8>) -> u64 {
        if self.balances.contains_key(holder) {
            self.balances[holder]
        } else {
            0
        }
    }

    /// The round at `key` is in order: it is well formed, and each of its
    /// holders is the address of a ticket on the ledger.
    pub open spec fn round_in_order(self, key: Seq<u8>) -> bool {
        let round = self.lotteries[key].data;
        &&& round.well_formed()
        &&& forall|i: int|
            0 <= i < round.holders.len() ==> self.tickets.contains_key(#[trigger] round.holders[i])
    }

    /// What holds of the ledger between any two operations: every round is in
    /// order, and every ticket holds numbers that a purchase admits.
    pub open spec fn well_formed(self) -> bool {
        &&& forall|key: Seq<u8>| #[trigger]
            self.lotteries.contains_key(key) ==> self.round_in_order(key)
        &&& forall|key: Seq<u8>| #[trigger]
            self.tickets.contains_key(key) ==> self.tickets[key].well_formed()
    }
}

/// An operation that was to lead from `before` to `outcome` ended in `done`
/// and left the ledger as `after`: on success the ledger is the outcome, and
/// on failure it is unchanged and the error is the one foreseen.
pub open spec fn committed(
    before: LedgerView,
    after: LedgerView,
    done: Result<(), ErrorCode>,
    outcome: Result<LedgerView, ErrorCode>,
) -> bool {
    match outcome {
        Ok(next) => done is Ok && after == next,
        Err(e) => done == Err::<(), ErrorCode>(e) && after == before,
    }
}

/// What a credit of `lamports` to `holder` from outside makes of the ledger:
/// `BalanceOverflow` where the balance would leave the range of `u64`, and
/// else the ledger with that balance raised.
pub open spec fn spec_airdrop(ledger: LedgerView, holder: Seq<u8>, lamports: u64) -> Result<
    LedgerView,
    ErrorCode,
> {
    if ledger.balance(holder) + lamports > u64::MAX {
        Err(ErrorCode::BalanceOverflow)
    } else {
        Ok(
            LedgerView {
                balances: ledger.balances.insert(
                    holder,
                    (ledger.balance(holder) + lamports) as u64,
                ),
                ..ledger
            },
        )
    }
}

/// The ledger. Its records change only through the operations of
/// [`crate::lottery`].
pub struct Ledger {
    program_id: Address,
    clock: Clock,
    rent_minimum: u64,
    wallets: Table<u64>,
    lotteries: Table<Account<Lottery>>,
    tickets: Table<Account<Ticket>>,
}

impl View for Ledger {
    type V = LedgerView;

    closed spec fn view(&self) -> LedgerView {
        LedgerView {
            program_id: self.program_id@,
            clock: self.clock,
            rent_minimum: self.rent_minimum,
            balances: self.wallets@,
            lotteries: self.lotteries@.map_values(
                |account: Account<Lottery>|
                    LotteryAccountView { lamports: account.lamports, data: account.data@ },
            ),
            tickets: self.tickets@.map_values(|account: Account<Ticket>| account.data),
        }
    }
}

impl Ledger {
    /// No table holds two rows under one address.
    pub closed spec fn structured(&self) -> bool {
        self.wallets.wf() && self.lotteries.wf() && self.tickets.wf()
    }

    /// The ledger is sound as a data structure, and its records are in order.
    pub open spec fn wf(&self) -> bool {
        self.structured() && self@.well_formed()
    }

    /// A ledger for the program at `program_id` that keeps `rent_minimum` back
    /// in every round. It holds no balance and no record, and its clock stands
    /// at the start of time.
    pub fn new(program_id: Address, rent_minimum: u64) -> (ledger: Ledger)
        ensures
            ledger.wf(),
            ledger@ == LedgerView::empty(program_id@, rent_minimum),
    {
        let ledger = Ledger {
            program_id,
            clock: Clock { slot: 0, unix_timestamp: 0 },
            rent_minimum,
            wallets: Table::new(),
            lotteries: Table::new(),
            tickets: Table::new(),
        };
        assert(ledger@.lotteries =~= Map::empty());
        assert(ledger@.tickets =~= Map::empty());
        ledger
    }

    /// The address of the lottery program.
    pub fn program_id(&self) -> (program_id: Address)
        ensures
            program_id@ == self@.program_id,
    {
        self.program_id
    }

    /// The ledger's clock.
    pub fn clock(&self) -> (clock: Clock)
        ensures
            clock == self@.clock,
    {
        self.clock
    }

    /// The balance that stays in a round's record when its escrow is paid out.
    pub fn rent_minimum(&self) -> (rent_minimum: u64)
        ensures
            rent_minimum == self@.rent_minimum,
    {
        self.rent_minimum
    }

    /// Sets the ledger's clock. Nothing else changes.
    pub fn set_clock(&mut self, clock: Clock)
        ensures
            final(self)@ == (LedgerView { clock, ..old(self)@ }),
            old(self).structured() ==> final(self).structured(),
            old(self).wf() ==> final(self).wf(),
    {
        self.clock = clock;
    }

    /// What `holder` owns: nothing where the ledger knows no balance of it.
    pub fn balance(&self, holder: &Address) -> (lamports: u64)
        requires
            self.structured(),
        ensures
            lamports == self@.balance(holder@),
    {
        match self.wallets.get(holder) {
            Some(lamports) => *lamports,
            None => 0,
        }
    }

    /// Whether a round lives at `key`.
    pub fn has_lottery(&self, key: &Address) -> (found: bool)
        requires
            self.structured(),
        ensures
            found == self@.lotteries.contains_key(key@),
    {
        self.lotteries.contains(key)
    }

    /// The round at `key` with its escrow, if a round lives there.
    pub fn lottery(&self, key: &Address) -> (found: Option<Account<Lottery>>)
        requires
            self.structured(),
        ensures
            match found {
                Some(account) => {
                    &&& self@.lotteries.contains_key(key@)
                    &&& account.key == *key
                    &&& account.lamports == self@.lotteries[key@].lamports
                    &&& account.data@ == self@.lotteries[key@].data
                },
                None => !self@.lotteries.contains_key(key@),
            },
    {
        match self.lotteries.get(key) {
            Some(account) => Some(
                Account { key: *key, lamports: account.lamports, data: account.data.clone() },
            ),
            None => None,
        }
    }

    /// Whether a ticket lives at `key`.
    pub fn has_ticket(&self, key: &Address) -> (found: bool)
        requires
            self.structured(),
        ensures
            found == self@.tickets.contains_key(key@),
    {
        self.tickets.contains(key)
    }

    /// The ticket at `key`, if a ticket lives there.
    pub fn ticket(&self, key: &Address) -> (found: Option<Ticket>)
        requires
            self.structured(),
        ensures
            match found {
                Some(ticket) => self@.tickets.contains_key(key@) && ticket == self@.tickets[key@],
                None => !self@.tickets.contains_key(key@),
            },
    {
        match self.tickets.get(key) {
            Some(account) => Some(account.data),
            None => None,
        }
    }

    /// Credits `holder` with `lamports` that come from outside the ledger, or
    /// fails with `BalanceOverflow` and changes nothing where the balance
    /// would leave the range of `u64`.
    pub fn airdrop(&mut self, holder: &Address, lamports: u64) -> (done: Result<(), ErrorCode>)
        requires
            old(self).wf(),
        ensures
            final(self).wf(),
            committed(old(self)@, final(self)@, done, spec_airdrop(old(self)@, holder@, lamports)),
    {
        let balance = self.balance(holder);
        if balance > u64::MAX - lamports {
            return Err(ErrorCode::BalanceOverflow);
        }
        self.store_balance(*holder, balance + lamports);
        Ok(())
    }

    /// Writes the balance of `holder`.
    pub(crate) fn store_balance(&mut self, holder: Address, lamports: u64)
        requires
            old(self).structured(),
        ensures
            final(self).structured(),
            final(self)@ == (LedgerView {
                balances: old(self)@.balances.insert(holder@, lamports),
                ..old(self)@
            }),
    {
        self.wallets.put(holder, lamports);
    }

    /// Writes a round, with its escrow, under its address.
    pub(crate) fn store_lottery(&mut self, account: Account<Lottery>)
        requires
            old(self).structured(),
        ensures
            final(self).structured(),
            final(self)@ == (LedgerView {
                lotteries: old(self)@.lotteries.insert(
                    account.key@,
                    LotteryAccountView { lamports: account.lamports, data: account.data@ },
                ),
                ..old(self)@
            }),
    {
        let ghost key = account.key@;
        let ghost value = LotteryAccountView { lamports: account.lamports, data: account.data@ };
        self.lotteries.put(account.key, account);
        assert(self@.lotteries =~= old(self)@.lotteries.insert(key, value));
    }

    /// Writes a ticket under its address.
    pub(crate) fn store_ticket(&mut self, account: Account<Ticket>)
        requires
            old(self).structured(),
        ensures
            final(self).structured(),
            final(self)@ == (LedgerView {
                tickets: old(self)@.tickets.insert(account.key@, account.data),
                ..old(self)@
            }),
    {
        let ghost key = account.key@;
        let ghost value = account.data;
        self.tickets.put(account.key, account);
        assert(self@.tickets =~= old(self)@.tickets.insert(key, value));
    }
}

} // verus!
