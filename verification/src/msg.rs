//! The decoded request and response payloads of the three external operations.

use vstd::prelude::*;

use crate::state::{Identity, Storage};

verus! {

/// The construction-time payload: seeds both ledger records.
#[derive(Debug)]
pub struct InstantiateMsg {
    pub admin: Identity,
    pub storage: Storage,
}

/// The closed set of item kinds the machine stocks.
#[derive(Clone, Copy, PartialEq, Eq, Structural, Debug)]
pub enum ItemType {
    Chocolate,
    Water,
    Chips,
}

/// The response to an inventory query: the current snapshot.
#[derive(Clone, Copy, PartialEq, Eq, Structural, Debug)]
pub struct ItemsCountResp {
    pub storage: Storage,
}

/// A query request: anyone may ask for the current inventory.
#[derive(Clone, Copy, PartialEq, Eq, Structural, Debug)]
pub enum QueryMsg {
    ItemCount {},
}

/// An execute request: dispense one unit, or replenish by deltas.
#[derive(Clone, Copy, PartialEq, Eq, Structural, Debug)]
pub enum ExecuteMsg {
    GetItem { item_type: ItemType },
    Refill { new_storage: Storage },
}

} // verus!
