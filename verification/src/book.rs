//! Book records.

use vstd::prelude::*;
use vstd::std_specs::cmp::PartialEqSpecImpl;
use crate::address::Address;

verus! {

/// The supply that is recorded for a book without a limit.
pub const UNLIMITED_SUPPLY: u32 = 0xffff_ffff;

/// A published book, as it is kept on the ledger.
///
/// Once published, nothing but `remaining_supply` ever changes.
#[derive(Debug)]
pub struct Book {
    pub title: String,
    /// The author's display name.
    pub author: String,
    /// The price of one copy, in the smallest unit of the currency.
    pub price: i128,
    pub cover_uri: String,
    pub book_uri: String,
    pub description: String,
    /// Whether the supply is limited.
    pub is_special: bool,
    pub total_supply: u32,
    pub remaining_supply: u32,
    /// The identity that published the book and receives its proceeds.
    pub author_address: Address,
}

/// What a [`Book`] record says.
pub struct BookView {
    pub title: Seq<char>,
    pub author: Seq<char>,
    pub price: i128,
    pub cover_uri: Seq<char>,
    pub book_uri: Seq<char>,
    pub description: Seq<char>,
    pub is_special: bool,
    pub total_supply: u32,
    pub remaining_supply: u32,
    pub author_address: Seq<char>,
}

impl BookView {
    /// No more copies are left than were offered, and a book without a limit
    /// still has its whole unlimited supply.
    pub open spec fn wf(self) -> bool {
        &&& self.remaining_supply <= self.total_supply
        &&& !self.is_special ==> self.total_supply == UNLIMITED_SUPPLY
            && self.remaining_supply == UNLIMITED_SUPPLY
    }

    /// The record of a book at the moment it is published: a special book
    /// offers `supply` copies, any other an unlimited number, and all of them
    /// are still to be had.
    pub open spec fn published(
        author: Seq<char>,
        title: Seq<char>,
        author_name: Seq<char>,
        description: Seq<char>,
        price: i128,
        cover_uri: Seq<char>,
        book_uri: Seq<char>,
        is_special: bool,
        supply: u32,
    ) -> BookView {
        let total: u32 = if is_special {
            supply
        } else {
            UNLIMITED_SUPPLY
        };
        BookView {
            title,
            author: author_name,
            price,
            cover_uri,
            book_uri,
            description,
            is_special,
            total_supply: total,
            remaining_supply: total,
            author_address: author,
        }
    }

    /// The record after one copy has been sold: a special book has one copy
    /// less, any other is as it was.
    pub open spec fn sold(self) -> BookView {
        if self.is_special {
            BookView { remaining_supply: (self.remaining_supply - 1) as u32, ..self }
        } else {
            self
        }
    }
}

impl View for Book {
    type V = BookView;

    open spec fn view(&self) -> BookView {
        BookView {
            title: self.title@,
            author: self.author@,
            price: self.price,
            cover_uri: self.cover_uri@,
            book_uri: self.book_uri@,
            description: self.description@,
            is_special: self.is_special,
            total_supply: self.total_supply,
            remaining_supply: self.remaining_supply,
            author_address: self.author_address@,
        }
    }
}

impl Book {
    /// The record of a book that `author` publishes now.
    pub fn new(
        author: Address,
        title: String,
        author_name: String,
        description: String,
        price: i128,
        cover_uri: String,
        book_uri: String,
        is_special: bool,
        supply: u32,
    ) -> (r: Book)
        ensures
            r@ == BookView::published(
                author@,
                title@,
                author_name@,
                description@,
                price,
                cover_uri@,
                book_uri@,
                is_special,
                supply,
            ),
            r@.wf(),
    {
        let total_supply: u32 = if is_special {
            supply
        } else {
            UNLIMITED_SUPPLY
        };
        Book {
            title,
            author: author_name,
            price,
            cover_uri,
            book_uri,
            description,
            is_special,
            total_supply,
            remaining_supply: total_supply,
            author_address: author,
        }
    }

    /// The record after one copy has been sold.
    pub fn sell_one(&self) -> (r: Book)
        requires
            self.remaining_supply > 0,
        ensures
            r@ == self@.sold(),
            self@.wf() ==> r@.wf(),
    {
        let mut sold = self.clone();
        if sold.is_special {
            sold.remaining_supply = sold.remaining_supply - 1;
        }
        sold
    }
}

impl Clone for Book {
    fn clone(&self) -> (r: Book)
        ensures
            r == *self,
    {
        Book {
            title: self.title.clone(),
            author: self.author.clone(),
            price: self.price,
            cover_uri: self.cover_uri.clone(),
            book_uri: self.book_uri.clone(),
            description: self.description.clone(),
            is_special: self.is_special,
            total_supply: self.total_supply,
            remaining_supply: self.remaining_supply,
            author_address: self.author_address.clone(),
        }
    }
}

impl PartialEq for Book {
    fn eq(&self, other: &Book) -> (r: bool) {
        self.title == other.title && self.author == other.author && self.price == other.price
            && self.cover_uri == other.cover_uri && self.book_uri == other.book_uri
            && self.description == other.description && self.is_special == other.is_special
            && self.total_supply == other.total_supply
            && self.remaining_supply == other.remaining_supply
            && self.author_address == other.author_address
    }
}

impl Eq for Book {}

impl PartialEqSpecImpl for Book {
    open spec fn obeys_eq_spec() -> bool {
        true
    }

    open spec fn eq_spec(&self, other: &Book) -> bool {
        self@ == other@
    }
}

} // verus!
