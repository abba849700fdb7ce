//! A lottery that lives on a ledger.
//!
//! An authority opens a round, participants buy one ticket each by paying the
//! ticket price into the round's escrow, the authority draws six winning
//! numbers, and the holder of a ticket that matches the draw position by
//! position collects the escrow, once.
//!
//! The crate is layered the way the records are used:
//!
//! * [`address`] derives the address of a record from a namespace and its keys;
//! * [`state`] holds the two records, [`Lottery`] and [`Ticket`];
//! * [`instructions`] holds the four transitions, each a `handler` over the
//!   accounts that the operation touches;
//! * [`ledger`] keeps balances and records in memory, each in a [`table`] by
//!   address, and [`lottery`] runs a whole operation against it: derive the
//!   addresses, load the accounts, run the handler, and commit only on
//!   success;
//! * [`theorems`] states what holds across several operations.
//!
//! Two things are taken on trust from `anchor_lang`: the derivation of a
//! program address in [`address`], and the reading of the clock in [`sysvar`].

pub mod account;
pub mod address;
pub mod constants;
pub mod error;
pub mod instructions;
pub mod ledger;
pub mod lottery;
pub mod state;
pub mod sysvar;
pub mod table;
pub mod theorems;

pub use account::{Account, Signer};
pub use address::Address;
pub use error::{ErrorCategory, ErrorCode};
pub use instructions::claim::Claim;
pub use instructions::draw::Draw;
pub use instructions::initialize::Initialize;
pub use instructions::purchase::Purchase;
pub use ledger::Ledger;
pub use state::lottery::Lottery;
pub use state::ticket::Ticket;
pub use sysvar::Clock;
