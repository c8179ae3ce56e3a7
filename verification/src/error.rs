//! The typed failures a ledger transition can raise.

use vstd::prelude::*;

use crate::msg::ItemType;
use crate::state::Identity;

verus! {

/// A typed failure of one ledger transition. Every error is terminal for the
/// call that raised it: the call aborts with no state change, and the error
/// is surfaced verbatim to the external caller.
#[derive(Debug)]
pub enum ContractError {
    /// A ledger record was read before instantiation wrote it.
    NotInitialized,
    /// An identity other than the stored admin attempted a refill.
    Unauthorized { sender: Identity },
    /// A dispense was attempted on a kind whose count is zero.
    InsufficientStock { item_type: ItemType },
    /// A refill would carry a count past the representable range.
    Overflow { item_type: ItemType },
}

/// Whether two errors report the same failure: the same variant, naming the
/// same principal or the same item kind.
pub open spec fn same_error(a: ContractError, b: ContractError) -> bool {
    match (a, b) {
        (ContractError::NotInitialized, ContractError::NotInitialized) => true,
        (
            ContractError::Unauthorized { sender: s1 },
            ContractError::Unauthorized { sender: s2 },
        ) => s1@ == s2@,
        (
            ContractError::InsufficientStock { item_type: k1 },
            ContractError::InsufficientStock { item_type: k2 },
        ) => k1 == k2,
        (
            ContractError::Overflow { item_type: k1 },
            ContractError::Overflow { item_type: k2 },
        ) => k1 == k2,
        _ => false,
    }
}

impl PartialEq for ContractError {
    fn eq(&self, other: &ContractError) -> (r: bool) {
        match (self, other) {
            (ContractError::NotInitialized, ContractError::NotInitialized) => true,
            (
                ContractError::Unauthorized { sender: s1 },
                ContractError::Unauthorized { sender: s2 },
            ) => s1.addr == s2.addr,
            (
                ContractError::InsufficientStock { item_type: k1 },
                ContractError::InsufficientStock { item_type: k2 },
            ) => k1 == k2,
            (
                ContractError::Overflow { item_type: k1 },
                ContractError::Overflow { item_type: k2 },
            ) => k1 == k2,
            _ => false,
        }
    }
}

impl vstd::std_specs::cmp::PartialEqSpecImpl for ContractError {
    open spec fn obeys_eq_spec() -> bool {
        true
    }

    open spec fn eq_spec(&self, other: &ContractError) -> bool {
        same_error(*self, *other)
    }
}

} // verus!
