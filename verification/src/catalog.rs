//! The item catalog and the choice of an item from it.

use crate::address::Address;
use vstd::prelude::*;

verus! {

/// The fixed list of items that a lootbox can hold.
#[derive(Clone, Debug, PartialEq, Eq)]
pub struct ItemCatalog {
    pub items: Vec<Address>,
}

impl View for ItemCatalog {
    type V = Seq<Address>;

    open spec fn view(&self) -> Seq<Address> {
        self.items@
    }
}

impl ItemCatalog {
    /// The catalog of the given items, in the given order.
    pub fn new(items: Vec<Address>) -> (catalog: ItemCatalog)
        ensures
            catalog@ == items@,
    {
        ItemCatalog { items }
    }

    /// The number of items.
    pub fn len(&self) -> (n: usize)
        ensures
            n == self@.len(),
    {
        self.items.len()
    }

    /// The item at `index`, or nothing when the catalog has no such place.
    pub fn get(&self, index: usize) -> (item: Option<Address>)
        ensures
            item == if index < self@.len() {
                Some(self@[index as int])
            } else {
                None
            },
    {
        if index < self.items.len() {
            Some(self.items[index])
        } else {
            None
        }
    }
}

/// A way of choosing which item a lootbox holds.
///
/// The choice is a function of the time of opening and of the size of the
/// catalog, so that a ledger can be replayed.
pub trait SelectItem {
    /// The place in a catalog of `catalog_size` items chosen at `now`.
    spec fn selection(&self, now: i64, catalog_size: nat) -> nat;

    /// Chooses a place in a catalog of `catalog_size` items at `now`.
    fn select(&self, now: i64, catalog_size: usize) -> (index: usize)
        requires
            catalog_size > 0,
        ensures
            index == self.selection(now, catalog_size as nat),
    ;
}

/// Chooses the item by the remainder of the time of opening. Anyone who can
/// pick the moment can pick the item: a stand-in for a source of randomness.
#[derive(Clone, Copy, Debug, PartialEq, Eq)]
pub struct TimestampModulo;

impl SelectItem for TimestampModulo {
    open spec fn selection(&self, now: i64, catalog_size: nat) -> nat {
        (now as int % catalog_size as int) as nat
    }

    fn select(&self, now: i64, catalog_size: usize) -> (index: usize) {
        match (now as i128).checked_rem_euclid(catalog_size as i128) {
            Some(remainder) => remainder as usize,
            None => 0,
        }
    }
}

/// Chooses the place that the host has drawn beforehand, from whatever
/// source of randomness it trusts. A place beyond the end of the catalog is
/// handed on as it is, for the ledger to refuse.
#[derive(Clone, Copy, Debug, PartialEq, Eq)]
pub struct ChosenPlace {
    pub place: usize,
}

impl SelectItem for ChosenPlace {
    open spec fn selection(&self, now: i64, catalog_size: nat) -> nat {
        self.place as nat
    }

    fn select(&self, now: i64, catalog_size: usize) -> (index: usize) {
        self.place
    }
}

} // verus!
