//! Balance holders, records with a balance, and the one way value moves.

use crate::address::Address;
use crate::error::ErrorCode;
use vstd::prelude::*;

verus! {

/// The authenticated caller of an operation, with the balance it pays from and
/// is paid into.
#[derive(Clone, Copy, Debug)]
pub struct Signer {
    pub key: Address,
    pub lamports: u64,
}

/// A record as an operation sees it: where it lives, the balance held with it,
/// and its state.
#[derive(Debug)]
pub struct Account<T> {
    pub key: Address,
    pub lamports: u64,
    pub data: T,
}

/// Why moving `amount` from a balance of `from` to a balance of `to` is
/// refused, or `None` where it goes through.
pub open spec fn transfer_refusal(from: u64, to: u64, amount: u64) -> Option<ErrorCode> {
    if from < amount {
        Some(ErrorCode::InsufficientFunds)
    } else if to + amount > u64::MAX {
        Some(ErrorCode::BalanceOverflow)
    } else {
        None
    }
}

/// Moves `amount` native units from one balance to another, or changes
/// neither. What leaves `from` arrives in `to`: no unit is made or lost.
pub fn transfer(from: &mut u64, to: &mut u64, amount: u64) -> (moved: Result<(), ErrorCode>)
    ensures
        match transfer_refusal(*old(from), *old(to), amount) {
            Some(e) => moved == Err::<(), ErrorCode>(e) && *final(from) == *old(from) && *final(to)
                == *old(to),
            None => moved is Ok && *final(from) == *old(from) - amount && *final(to) == *old(to)
                + amount,
        },
{
    if *from < amount {
        return Err(ErrorCode::InsufficientFunds);
    }
    if *to > u64::MAX - amount {
        return Err(ErrorCode::BalanceOverflow);
    }
    *from = *from - amount;
    *to = *to + amount;
    Ok(())
}

} // verus!
