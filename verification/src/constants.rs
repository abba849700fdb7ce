//! The fixed parameters of a round.

use vstd::prelude::*;

verus! {

/// Namespace of round records: the bytes of `lottery`.
pub const LOTTERY_SEED: [u8; 7] = [108, 111, 116, 116, 101, 114, 121];

/// Namespace of ticket records: the bytes of `ticket`.
pub const TICKET_SEED: [u8; 6] = [116, 105, 99, 107, 101, 116];

/// What one ticket costs, in native units.
pub const TICKET_PRICE: u64 = 1_000_000;

/// How many tickets one round can sell.
pub const MAX_TICKETS: u32 = 100;

/// The smallest number a ticket or a draw can hold.
pub const MIN_NUMBER: u8 = 1;

/// The largest number a ticket or a draw can hold.
pub const MAX_NUMBER: u8 = 10;

} // verus!
