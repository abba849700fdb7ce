//! The two kinds of record: a round, and a ticket bought in it.

pub mod lottery;
pub mod ticket;
