//! A ticket: six numbers that one participant chose for one round.

use crate::constants::{MAX_NUMBER, MIN_NUMBER};
use vstd::prelude::*;

verus! {

/// One participant's ticket. It is written once, at purchase, and never
/// changed. Its address follows from the round and the participant, so a
/// participant holds at most one ticket of a round.
#[derive(Clone, Copy, Debug, PartialEq, Eq)]
pub struct Ticket {
    /// The six numbers chosen, in the order chosen.
    pub numbers: [u8; 6],
    /// The bump that completes the seeds of the ticket's address.
    pub bump: u8,
}

/// Every number lies in 1..=10.
pub open spec fn in_range(numbers: Seq<u8>) -> bool {
    forall|i: int| 0 <= i < numbers.len() ==> MIN_NUMBER <= #[trigger] numbers[i] <= MAX_NUMBER
}

/// What a participant may put on a ticket: numbers in 1..=10, none twice.
pub open spec fn valid_ticket_numbers(numbers: Seq<u8>) -> bool {
    in_range(numbers) && numbers.no_duplicates()
}

impl Ticket {
    /// The ticket holds numbers that a purchase admits.
    pub open spec fn well_formed(self) -> bool {
        valid_ticket_numbers(self.numbers@)
    }
}

/// Whether every number lies in 1..=10.
pub fn numbers_in_range(numbers: &[u8; 6]) -> (ok: bool)
    ensures
        ok == in_range(numbers@),
{
    let mut i: usize = 0;
    while i < 6
        invariant
            i <= 6,
            forall|j: int| 0 <= j < i ==> MIN_NUMBER <= #[trigger] numbers@[j] <= MAX_NUMBER,
        decreases 6 - i,
    {
        if numbers[i] < MIN_NUMBER || numbers[i] > MAX_NUMBER {
            return false;
        }
        i += 1;
    }
    true
}

/// Whether no number occurs twice.
pub fn numbers_distinct(numbers: &[u8; 6]) -> (ok: bool)
    ensures
        ok == numbers@.no_duplicates(),
{
    let mut i: usize = 0;
    while i < 6
        invariant
            i <= 6,
            forall|a: int, b: int|
                0 <= a < i && 0 <= b < 6 && a != b ==> numbers@[a] != numbers@[b],
        decreases 6 - i,
    {
        let mut j: usize = 0;
        while j < 6
            invariant
                i < 6,
                j <= 6,
                forall|b: int| 0 <= b < j && i as int != b ==> numbers@[i as int] != numbers@[b],
            decreases 6 - j,
        {
            if i != j && numbers[i] == numbers[j] {
                return false;
            }
            j += 1;
        }
        i += 1;
    }
    true
}

/// Whether two tuples of numbers agree in every position.
pub fn numbers_match(left: &[u8; 6], right: &[u8; 6]) -> (same: bool)
    ensures
        same == (left@ == right@),
{
    let mut i: usize = 0;
    while i < 6
        invariant
            i <= 6,
            forall|j: int| 0 <= j < i ==> left@[j] == right@[j],
        decreases 6 - i,
    {
        if left[i] != right[i] {
            return false;
        }
        i += 1;
    }
    assert(left@ =~= right@);
    true
}

} // verus!
