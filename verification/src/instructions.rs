//! The four operations on a round, each over the accounts it touches.
//!
//! A handler checks its preconditions in a fixed order, then changes the
//! accounts it was given; where it returns an error it has changed nothing.

pub mod claim;
pub mod draw;
pub mod initialize;
pub mod purchase;
