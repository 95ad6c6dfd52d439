//! The layout of the records on the ledger.

use vstd::prelude::*;
use crate::address::Address;

verus! {

/// The two tiers of the ledger's storage.
#[derive(Clone, Copy, Debug, PartialEq, Eq, Structural)]
pub enum Tier {
    /// Small values that live as long as the contract instance.
    Instance,
    /// Records that are kept, and expire, one by one.
    Persistent,
}

/// The key under which a record is kept.
#[derive(Debug)]
pub enum DataKey {
    /// The admin's address.
    Admin,
    /// The record of the book with the given id.
    Book(u32),
    /// The id of the book published last.
    TokenIdCounter,
    /// The mark that the address has bought the book with the given id.
    Purchase(Address, u32),
    /// The tips given for the book with the given id.
    Tips(u32),
}

/// What a [`DataKey`] says.
pub enum DataKeyView {
    Admin,
    Book(u32),
    TokenIdCounter,
    Purchase(Seq<char>, u32),
    Tips(u32),
}

impl DataKeyView {
    /// The tier in which the record under this key is kept: the admin and the
    /// counter with the instance, every other record on its own.
    pub open spec fn tier(self) -> Tier {
        match self {
            DataKeyView::Admin => Tier::Instance,
            DataKeyView::TokenIdCounter => Tier::Instance,
            DataKeyView::Book(_) => Tier::Persistent,
            DataKeyView::Purchase(_, _) => Tier::Persistent,
            DataKeyView::Tips(_) => Tier::Persistent,
        }
    }
}

impl View for DataKey {
    type V = DataKeyView;

    open spec fn view(&self) -> DataKeyView {
        match self {
            DataKey::Admin => DataKeyView::Admin,
            DataKey::Book(id) => DataKeyView::Book(*id),
            DataKey::TokenIdCounter => DataKeyView::TokenIdCounter,
            DataKey::Purchase(buyer, id) => DataKeyView::Purchase(buyer@, *id),
            DataKey::Tips(id) => DataKeyView::Tips(*id),
        }
    }
}

impl DataKey {
    /// The tier in which the record under this key is kept.
    pub fn tier(&self) -> (r: Tier)
        ensures
            r == self@.tier(),
    {
        match self {
            DataKey::Admin => Tier::Instance,
            DataKey::TokenIdCounter => Tier::Instance,
            DataKey::Book(_) => Tier::Persistent,
            DataKey::Purchase(_, _) => Tier::Persistent,
            DataKey::Tips(_) => Tier::Persistent,
        }
    }
}

impl Clone for DataKey {
    fn clone(&self) -> (r: DataKey)
        ensures
            r == *self,
    {
        match self {
            DataKey::Admin => DataKey::Admin,
            DataKey::Book(id) => DataKey::Book(*id),
            DataKey::TokenIdCounter => DataKey::TokenIdCounter,
            DataKey::Purchase(buyer, id) => DataKey::Purchase(buyer.clone(), *id),
            DataKey::Tips(id) => DataKey::Tips(*id),
        }
    }
}

} // verus!
