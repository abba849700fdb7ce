//! A round of the lottery, from its opening to the payout of its escrow.

use crate::address::Address;
use crate::constants::{MAX_NUMBER, MAX_TICKETS, MIN_NUMBER};
use crate::state::ticket::in_range;
use vstd::prelude::*;

verus! {

/// The state of one round.
///
/// A round is open (`is_active`) from its creation to its draw, drawn from
/// then to the claim, and claimed for ever after. `sold` and `holders` only
/// grow, and only while the round is open.
#[derive(Debug, PartialEq, Eq)]
pub struct Lottery {
    /// Who opened the round and alone may draw it.
    pub authority: Address,
    /// The identifier that the round's address is derived from.
    pub id: u64,
    /// The addresses of the tickets sold, in the order sold; at most 100.
    pub holders: Vec<Address>,
    /// How many tickets were sold.
    pub sold: u32,
    /// What one ticket costs.
    pub price: u64,
    /// Tickets are on sale and the draw is still to come.
    pub is_active: bool,
    /// The escrow has been paid out.
    pub is_claimed: bool,
    /// The numbers drawn, once they are.
    pub numbers: Option<[u8; 6]>,
    /// The bump that completes the seeds of the round's address.
    pub bump: u8,
}

/// A round as a mathematical value.
pub struct LotteryView {
    pub authority: Seq<u8>,
    pub id: u64,
    pub holders: Seq<Seq<u8>>,
    pub sold: u32,
    pub price: u64,
    pub is_active: bool,
    pub is_claimed: bool,
    pub numbers: Option<Seq<u8>>,
    pub bump: u8,
}

/// What a draw may produce: six numbers in 1..=10. They may repeat.
pub open spec fn valid_draw(numbers: Seq<u8>) -> bool {
    numbers.len() == 6 && in_range(numbers)
}

impl LotteryView {
    /// What holds of a round at every moment of its life: the counter agrees
    /// with the list of tickets and stays within the capacity, the numbers are
    /// there exactly when the round is no longer open, only a round that sold
    /// a ticket is drawn, and only a drawn round is claimed.
    pub open spec fn well_formed(self) -> bool {
        &&& self.sold == self.holders.len()
        &&& self.sold <= MAX_TICKETS
        &&& self.is_active <==> self.numbers is None
        &&& !self.is_active ==> self.sold > 0
        &&& self.is_claimed ==> !self.is_active
        &&& self.numbers matches Some(numbers) ==> valid_draw(numbers)
    }

    /// The round now differs from the round `self` at most by what operations
    /// do to a round: who may draw it, its identifier, its price and its bump
    /// are the same; tickets were only added, at the end; a closed round
    /// stays closed and keeps its numbers; a claimed round stays claimed.
    pub open spec fn advances_to(self, now: LotteryView) -> bool {
        &&& now.authority == self.authority
        &&& now.id == self.id
        &&& now.price == self.price
        &&& now.bump == self.bump
        &&& now.sold >= self.sold
        &&& now.holders.len() >= self.holders.len()
        &&& now.holders.take(self.holders.len() as int) == self.holders
        &&& !self.is_active ==> !now.is_active && now.numbers == self.numbers
        &&& self.is_claimed ==> now.is_claimed
    }
}

/// The addresses as sequences of bytes.
pub open spec fn addresses_view(addresses: Seq<Address>) -> Seq<Seq<u8>> {
    Seq::new(addresses.len(), |i: int| addresses[i]@)
}

/// The numbers as a sequence, where there are any.
pub open spec fn numbers_view(numbers: Option<[u8; 6]>) -> Option<Seq<u8>> {
    match numbers {
        Some(numbers) => Some(numbers@),
        None => None,
    }
}

impl View for Lottery {
    type V = LotteryView;

    open spec fn view(&self) -> LotteryView {
        LotteryView {
            authority: self.authority@,
            id: self.id,
            holders: addresses_view(self.holders@),
            sold: self.sold,
            price: self.price,
            is_active: self.is_active,
            is_claimed: self.is_claimed,
            numbers: numbers_view(self.numbers),
            bump: self.bump,
        }
    }
}

impl Lottery {
    /// The round satisfies [`LotteryView::well_formed`].
    pub open spec fn well_formed(&self) -> bool {
        self@.well_formed()
    }

    /// The state of a record before a round is written into it: everything
    /// zero, nothing sold, not open.
    pub open spec fn spec_blank() -> LotteryView {
        LotteryView {
            authority: Seq::new(32, |i: int| 0u8),
            id: 0,
            holders: Seq::empty(),
            sold: 0,
            price: 0,
            is_active: false,
            is_claimed: false,
            numbers: None,
            bump: 0,
        }
    }

    /// A record that no round was written into yet.
    pub fn blank() -> (lottery: Lottery)
        ensures
            lottery@ == Lottery::spec_blank(),
    {
        let lottery = Lottery {
            authority: Address::new([0u8;32]),
            id: 0,
            holders: Vec::new(),
            sold: 0,
            price: 0,
            is_active: false,
            is_claimed: false,
            numbers: None,
            bump: 0,
        };
        assert(lottery@.authority =~= Lottery::spec_blank().authority);
        assert(lottery@.holders =~= Lottery::spec_blank().holders);
        lottery
    }
}

impl Clone for Lottery {
    fn clone(&self) -> (copy: Lottery)
        ensures
            copy@ == self@,
    {
        let mut holders: Vec<Address> = Vec::new();
        let mut i: usize = 0;
        while i < self.holders.len()
            invariant
                i <= self.holders.len(),
                holders@ == self.holders@.take(i as int),
            decreases self.holders.len() - i,
        {
            holders.push(self.holders[i]);
            assert(self.holders@.take(i + 1) =~= self.holders@.take(i as int).push(
                self.holders@[i as int],
            ));
            i += 1;
        }
        assert(self.holders@.take(i as int) =~= self.holders@);
        Lottery {
            authority: self.authority,
            id: self.id,
            holders,
            sold: self.sold,
            price: self.price,
            is_active: self.is_active,
            is_claimed: self.is_claimed,
            numbers: self.numbers,
            bump: self.bump,
        }
    }
}

} // verus!
