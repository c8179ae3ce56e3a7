//! The state machine: how instantiation seeds the ledger, how dispense and
//! refill mutate it, and the authorization and arithmetic rules that hold
//! across every transition.
//!
//! Each transition is described twice: a specification function gives the
//! exact state-and-result semantics, and the executable function is proved
//! to agree with it on every input. The hosting environment serializes the
//! calls, so each transition is one atomic read-modify-write of the ledger.

use vstd::prelude::*;

use crate::error::ContractError;
use crate::msg::{ExecuteMsg, InstantiateMsg, ItemType, ItemsCountResp, QueryMsg};
use crate::state::{count_of, with_count, Chips, Chocolate, Identity, Ledger, Storage, Water};

verus! {

/// The ledger that instantiation establishes: both records written from the
/// message, whatever was there before.
pub open spec fn spec_instantiate(msg: InstantiateMsg) -> Ledger {
    Ledger { admin: Some(msg.admin), inventory: Some(msg.storage) }
}

/// What an inventory query returns: the current snapshot, or
/// `NotInitialized` when the inventory record is absent.
pub open spec fn spec_items_count(ledger: Ledger) -> Result<ItemsCountResp, ContractError> {
    match ledger.inventory {
        Some(s) => Ok(ItemsCountResp { storage: s }),
        None => Err(ContractError::NotInitialized),
    }
}

/// What a query request returns, by request kind.
pub open spec fn spec_query(ledger: Ledger, msg: QueryMsg) -> Result<
    ItemsCountResp,
    ContractError,
> {
    match msg {
        QueryMsg::ItemCount {} => spec_items_count(ledger),
    }
}

/// The ledger and result of dispensing one unit of `item_type`: the count of
/// that kind drops by exactly one, every other count and the admin are kept;
/// a zero count fails with `InsufficientStock` and an absent inventory record
/// with `NotInitialized`, each leaving the ledger unchanged.
pub open spec fn spec_get_item(ledger: Ledger, item_type: ItemType) -> (Ledger, Result<
    (),
    ContractError,
>) {
    match ledger.inventory {
        None => (ledger, Err(ContractError::NotInitialized)),
        Some(inv) => if count_of(inv, item_type) == 0 {
            (ledger, Err(ContractError::InsufficientStock { item_type }))
        } else {
            (
                Ledger {
                    inventory: Some(
                        with_count(inv, item_type, (count_of(inv, item_type) - 1) as u128),
                    ),
                    ..ledger
                },
                Ok(()),
            )
        },
    }
}

/// Whether adding the delta that `deltas` holds for `kind` to the count that
/// `inv` holds for `kind` would leave the representable range.
pub open spec fn refill_overflows(inv: Storage, deltas: Storage, kind: ItemType) -> bool {
    count_of(inv, kind) + count_of(deltas, kind) > u128::MAX
}

/// The inventory after a successful refill: every count raised by the
/// matching delta.
pub open spec fn refilled(inv: Storage, deltas: Storage) -> Storage {
    Storage {
        chocolate: Chocolate { count: (inv.chocolate.count + deltas.chocolate.count) as u128 },
        water: Water { count: (inv.water.count + deltas.water.count) as u128 },
        chips: Chips { count: (inv.chips.count + deltas.chips.count) as u128 },
    }
}

/// The ledger and result of a refill by `sender`: only the stored admin may
/// refill, the operation is additive per kind and all-or-nothing, and any
/// failure — missing records, a foreign sender, or a count pushed past the
/// representable range — leaves the ledger unchanged.
pub open spec fn spec_refill(ledger: Ledger, sender: Identity, deltas: Storage) -> (Ledger, Result<
    (),
    ContractError,
>) {
    match ledger.admin {
        None => (ledger, Err(ContractError::NotInitialized)),
        Some(admin) => if sender@ != admin@ {
            (ledger, Err(ContractError::Unauthorized { sender }))
        } else {
            match ledger.inventory {
                None => (ledger, Err(ContractError::NotInitialized)),
                Some(inv) => if refill_overflows(inv, deltas, ItemType::Chocolate) {
                    (ledger, Err(ContractError::Overflow { item_type: ItemType::Chocolate }))
                } else if refill_overflows(inv, deltas, ItemType::Water) {
                    (ledger, Err(ContractError::Overflow { item_type: ItemType::Water }))
                } else if refill_overflows(inv, deltas, ItemType::Chips) {
                    (ledger, Err(ContractError::Overflow { item_type: ItemType::Chips }))
                } else {
                    (Ledger { inventory: Some(refilled(inv, deltas)), ..ledger }, Ok(()))
                },
            }
        },
    }
}

/// The ledger and result of one execute request, by request kind. Dispensing
/// is open to any caller; only `Refill` consults the sender.
pub open spec fn spec_execute(ledger: Ledger, sender: Identity, msg: ExecuteMsg) -> (Ledger, Result<
    (),
    ContractError,
>) {
    match msg {
        ExecuteMsg::GetItem { item_type } => spec_get_item(ledger, item_type),
        ExecuteMsg::Refill { new_storage } => spec_refill(ledger, sender, new_storage),
    }
}

/// Seeds both ledger records with the caller-supplied admin and initial
/// inventory. Any admin identity and any counts, zero included, are accepted;
/// the host calls this exactly once per ledger lifetime.
pub fn instantiate(ledger: &mut Ledger, msg: InstantiateMsg)
    ensures
        *final(ledger) == spec_instantiate(msg),
{
    ledger.admin = Some(msg.admin);
    ledger.inventory = Some(msg.storage);
}

/// Pure projection of the current inventory; callable by anyone.
pub fn items_count(ledger: &Ledger) -> (r: Result<ItemsCountResp, ContractError>)
    ensures
        r == spec_items_count(*ledger),
{
    match &ledger.inventory {
        Some(s) => Ok(ItemsCountResp { storage: *s }),
        None => Err(ContractError::NotInitialized),
    }
}

/// Answers a query request; queries never mutate the ledger.
pub fn query(ledger: &Ledger, msg: QueryMsg) -> (r: Result<ItemsCountResp, ContractError>)
    ensures
        r == spec_query(*ledger, msg),
{
    match msg {
        QueryMsg::ItemCount {} => items_count(ledger),
    }
}

/// Dispenses one unit of `item_type`: decrements that count by exactly one.
/// No authorization check — any caller may dispense. A zero count fails with
/// `InsufficientStock` before any mutation, so a failed dispense leaves the
/// ledger unchanged.
pub fn get_item(ledger: &mut Ledger, item_type: ItemType) -> (r: Result<(), ContractError>)
    ensures
        *final(ledger) == spec_get_item(*old(ledger), item_type).0,
        r == spec_get_item(*old(ledger), item_type).1,
{
    let inv = match ledger.inventory {
        Some(inv) => inv,
        None => { return Err(ContractError::NotInitialized) },
    };
    match item_type {
        ItemType::Chocolate => {
            if inv.chocolate.count == 0 {
                return Err(ContractError::InsufficientStock { item_type });
            }
            ledger.inventory = Some(
                Storage { chocolate: Chocolate { count: inv.chocolate.count - 1 }, ..inv },
            );
        },
        ItemType::Water => {
            if inv.water.count == 0 {
                return Err(ContractError::InsufficientStock { item_type });
            }
            ledger.inventory = Some(
                Storage { water: Water { count: inv.water.count - 1 }, ..inv },
            );
        },
        ItemType::Chips => {
            if inv.chips.count == 0 {
                return Err(ContractError::InsufficientStock { item_type });
            }
            ledger.inventory = Some(
                Storage { chips: Chips { count: inv.chips.count - 1 }, ..inv },
            );
        },
    }
    Ok(())
}

/// Replenishes the inventory by the counts that `new_storage` holds, one
/// delta per kind, additive and all-or-nothing. Only the stored admin may
/// refill; a foreign `info` fails with `Unauthorized`, and a sum past the
/// representable range fails the whole operation with `Overflow`, checked
/// kind by kind in declaration order. Every failure leaves the ledger
/// unchanged.
pub fn refill(ledger: &mut Ledger, info: Identity, new_storage: Storage) -> (r: Result<
    (),
    ContractError,
>)
    ensures
        *final(ledger) == spec_refill(*old(ledger), info, new_storage).0,
        r == spec_refill(*old(ledger), info, new_storage).1,
{
    match &ledger.admin {
        None => { return Err(ContractError::NotInitialized) },
        Some(admin) => {
            if !info.matches(admin) {
                return Err(ContractError::Unauthorized { sender: info });
            }
        },
    }
    let inv = match ledger.inventory {
        Some(inv) => inv,
        None => { return Err(ContractError::NotInitialized) },
    };
    if inv.chocolate.count > u128::MAX - new_storage.chocolate.count {
        return Err(ContractError::Overflow { item_type: ItemType::Chocolate });
    }
    if inv.water.count > u128::MAX - new_storage.water.count {
        return Err(ContractError::Overflow { item_type: ItemType::Water });
    }
    if inv.chips.count > u128::MAX - new_storage.chips.count {
        return Err(ContractError::Overflow { item_type: ItemType::Chips });
    }
    ledger.inventory = Some(
        Storage {
            chocolate: Chocolate { count: inv.chocolate.count + new_storage.chocolate.count },
            water: Water { count: inv.water.count + new_storage.water.count },
            chips: Chips { count: inv.chips.count + new_storage.chips.count },
        },
    );
    Ok(())
}

/// Applies one execute request to the ledger: dispense for `GetItem`,
/// admin-only replenishment for `Refill`.
pub fn execute(ledger: &mut Ledger, info: Identity, msg: ExecuteMsg) -> (r: Result<
    (),
    ContractError,
>)
    ensures
        *final(ledger) == spec_execute(*old(ledger), info, msg).0,
        r == spec_execute(*old(ledger), info, msg).1,
{
    match msg {
        ExecuteMsg::GetItem { item_type } => get_item(ledger, item_type),
        ExecuteMsg::Refill { new_storage } => refill(ledger, info, new_storage),
    }
}

/// Init invariant: instantiation stores exactly the given admin, and an
/// inventory query on the resulting ledger returns exactly the given
/// inventory, for every message.
pub proof fn lemma_init_invariant(msg: InstantiateMsg)
    ensures
        spec_instantiate(msg).admin == Some(msg.admin),
        spec_items_count(spec_instantiate(msg)) == Ok::<ItemsCountResp, ContractError>(
            ItemsCountResp { storage: msg.storage },
        ),
{
}

/// Dispense decrement: on a ledger whose inventory holds a positive count of
/// the requested kind, dispensing succeeds, lowers that count by exactly one,
/// and keeps every other count and the admin, whoever the caller is.
pub proof fn lemma_dispense_decrement(ledger: Ledger, kind: ItemType)
    requires
        ledger.inventory is Some,
        count_of(ledger.inventory->0, kind) > 0,
    ensures
        spec_get_item(ledger, kind).1 == Ok::<(), ContractError>(()),
        spec_get_item(ledger, kind).0.admin == ledger.admin,
        spec_get_item(ledger, kind).0.inventory is Some,
        count_of(spec_get_item(ledger, kind).0.inventory->0, kind) == count_of(
            ledger.inventory->0,
            kind,
        ) - 1,
        forall|other: ItemType|
            other != kind ==> count_of(spec_get_item(ledger, kind).0.inventory->0, other)
                == count_of(ledger.inventory->0, other),
{
}

/// Stock floor: dispensing a kind whose count is zero fails with
/// `InsufficientStock` for that kind and leaves the ledger unchanged.
pub proof fn lemma_stock_floor(ledger: Ledger, kind: ItemType)
    requires
        ledger.inventory is Some,
        count_of(ledger.inventory->0, kind) == 0,
    ensures
        spec_get_item(ledger, kind).1 == Err::<(), ContractError>(
            ContractError::InsufficientStock { item_type: kind },
        ),
        spec_get_item(ledger, kind).0 == ledger,
{
}

/// Refill additivity: a refill by the stored admin on a ledger where no
/// count would overflow succeeds and raises every count by exactly the
/// matching delta, with no cross-kind interference; the admin is kept.
pub proof fn lemma_refill_additivity(ledger: Ledger, sender: Identity, deltas: Storage)
    requires
        ledger.admin is Some,
        sender@ == ledger.admin->0@,
        ledger.inventory is Some,
        forall|kind: ItemType| !refill_overflows(ledger.inventory->0, deltas, kind),
    ensures
        spec_refill(ledger, sender, deltas).1 == Ok::<(), ContractError>(()),
        spec_refill(ledger, sender, deltas).0.admin == ledger.admin,
        spec_refill(ledger, sender, deltas).0.inventory is Some,
        forall|kind: ItemType|
            count_of(spec_refill(ledger, sender, deltas).0.inventory->0, kind) == count_of(
                ledger.inventory->0,
                kind,
            ) + count_of(deltas, kind),
{
    assert(!refill_overflows(ledger.inventory->0, deltas, ItemType::Chocolate));
    assert(!refill_overflows(ledger.inventory->0, deltas, ItemType::Water));
    assert(!refill_overflows(ledger.inventory->0, deltas, ItemType::Chips));
}

/// Authorization: a refill attempted by any identity other than the stored
/// admin fails with `Unauthorized` naming that identity and leaves the
/// ledger unchanged, whatever the deltas.
pub proof fn lemma_refill_authorization(ledger: Ledger, sender: Identity, deltas: Storage)
    requires
        ledger.admin is Some,
        sender@ != ledger.admin->0@,
    ensures
        spec_refill(ledger, sender, deltas).1 == Err::<(), ContractError>(
            ContractError::Unauthorized { sender },
        ),
        spec_refill(ledger, sender, deltas).0 == ledger,
{
}

} // verus!
