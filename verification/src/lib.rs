//! A single-admin vending-machine ledger: an inventory of three item kinds,
//! queryable by anyone, decremented one unit at a time by dispensing, and
//! replenished only by the designated administrator.
//!
//! The ledger is an explicit aggregate passed to every transition function;
//! persistence and message encoding belong to the hosting environment, which
//! serializes all calls against one ledger.

pub mod contract;
pub mod error;
pub mod msg;
pub mod state;
