//! The persisted ledger: an admin identity and an inventory of three counts.

use vstd::prelude::*;

use crate::msg::ItemType;

verus! {

/// An opaque, comparable principal, such as an account address.
/// Two identities are the same principal exactly when their address
/// strings are equal.
#[derive(Debug)]
pub struct Identity {
    pub addr: String,
}

impl View for Identity {
    type V = Seq<char>;

    open spec fn view(&self) -> Seq<char> {
        self.addr@
    }
}

impl Identity {
    /// Whether `self` and `other` are the same principal.
    pub fn matches(&self, other: &Identity) -> (r: bool)
        ensures
            r == (self@ == other@),
    {
        self.addr == other.addr
    }
}

/// The chocolate stock record.
#[derive(Clone, Copy, PartialEq, Eq, Structural, Debug)]
pub struct Chocolate {
    pub count: u128,
}

/// The water stock record.
#[derive(Clone, Copy, PartialEq, Eq, Structural, Debug)]
pub struct Water {
    pub count: u128,
}

/// The chips stock record.
#[derive(Clone, Copy, PartialEq, Eq, Structural, Debug)]
pub struct Chips {
    pub count: u128,
}

/// The inventory snapshot: one non-negative count per item kind.
#[derive(Clone, Copy, PartialEq, Eq, Structural, Debug)]
pub struct Storage {
    pub chocolate: Chocolate,
    pub water: Water,
    pub chips: Chips,
}

/// The count that `s` holds for the kind `kind`.
pub open spec fn count_of(s: Storage, kind: ItemType) -> u128 {
    match kind {
        ItemType::Chocolate => s.chocolate.count,
        ItemType::Water => s.water.count,
        ItemType::Chips => s.chips.count,
    }
}

/// `s` with the count for `kind` replaced by `n` and every other count kept.
pub open spec fn with_count(s: Storage, kind: ItemType, n: u128) -> Storage {
    match kind {
        ItemType::Chocolate => Storage { chocolate: Chocolate { count: n }, ..s },
        ItemType::Water => Storage { water: Water { count: n }, ..s },
        ItemType::Chips => Storage { chips: Chips { count: n }, ..s },
    }
}

/// The persisted aggregate: two records keyed by name in the host's store,
/// each absent until instantiation writes it.
pub struct Ledger {
    /// The `"admin"` record: the sole identity allowed to refill.
    pub admin: Option<Identity>,
    /// The `"storage"` record: the current inventory snapshot.
    pub inventory: Option<Storage>,
}

impl Ledger {
    /// A ledger on which no instantiation has happened yet: both records absent.
    pub fn new() -> (r: Ledger)
        ensures
            r.admin is None,
            r.inventory is None,
    {
        Ledger { admin: None, inventory: None }
    }
}

} // verus!
