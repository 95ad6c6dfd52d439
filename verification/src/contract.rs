//! The marketplace contract: the records of one instance, and the calls that
//! read and change them.

use vstd::prelude::*;
use crate::address::Address;
use crate::book::{Book, BookView};
use crate::env::Env;
use crate::error::Error;
use crate::market::{Call, Market};
use crate::payment::{author_share, fee_of, transfers_view, Settlement, Transfer};
use crate::rules;
use crate::rules::{book_view, initialize_error, publish_error};
use crate::storage::DataKey;
use crate::tip::{copy_tips, tips_view, Tip, TipView};

verus! {

/// A book on record, with the tips given for it, oldest first.
#[derive(Debug)]
struct Shelf {
    book: Book,
    tips: Vec<Tip>,
}

/// The mark that `buyer` has bought the book with id `book_id`.
#[derive(Debug)]
struct PurchaseRecord {
    buyer: Address,
    book_id: u32,
}

/// One instance of the marketplace.
///
/// Every call is all or nothing: it either succeeds and changes the records as
/// its contract says, or it is rejected and changes none. A call that succeeds
/// hands back the transfers of funds that belong to it; carrying them out is
/// the caller's part, and a caller whose transfer fails drops the records that
/// the call has left, as a ledger host does when it aborts a call. A clone
/// taken before the call holds the records to go back to.
#[derive(Debug)]
pub struct HelloWorldContract {
    admin: Option<Address>,
    /// The book with id `i + 1` is at index `i`.
    shelves: Vec<Shelf>,
    purchases: Vec<PurchaseRecord>,
}

impl View for HelloWorldContract {
    type V = Market;

    closed spec fn view(&self) -> Market {
        Market {
            admin: match self.admin {
                Some(admin) => Some(admin@),
                None => None,
            },
            counter: self.shelves.len() as nat,
            books: Map::new(
                |id: u32| 1 <= id <= self.shelves.len(),
                |id: u32| self.shelves[id - 1].book@,
            ),
            purchases: Set::new(
                |p: (Seq<char>, u32)|
                    exists|k: int|
                        0 <= k < self.purchases.len() && (#[trigger] self.purchases[k]).buyer@
                            == p.0 && self.purchases[k].book_id == p.1,
            ),
            tips: Map::new(
                |id: u32| 1 <= id <= self.shelves.len() && self.shelves[id - 1].tips.len() > 0,
                |id: u32| tips_view(self.shelves[id - 1].tips@),
            ),
        }
    }
}

impl Clone for HelloWorldContract {
    fn clone(&self) -> (r: HelloWorldContract)
        ensures
            r@ == self@,
            self.wf() ==> r.wf(),
    {
        let mut shelves: Vec<Shelf> = Vec::new();
        let mut i: usize = 0;
        while i < self.shelves.len()
            invariant
                i <= self.shelves.len(),
                shelves.len() == i,
                forall|j: int|
                    0 <= j < i ==> (#[trigger] shelves[j]).book == self.shelves[j].book
                        && shelves[j].tips@ == self.shelves[j].tips@,
            decreases self.shelves.len() - i,
        {
            shelves.push(
                Shelf { book: self.shelves[i].book.clone(), tips: copy_tips(&self.shelves[i].tips) },
            );
            i = i + 1;
        }
        let mut purchases: Vec<PurchaseRecord> = Vec::new();
        let mut k: usize = 0;
        while k < self.purchases.len()
            invariant
                k <= self.purchases.len(),
                purchases.len() == k,
                forall|j: int| 0 <= j < k ==> (#[trigger] purchases[j]) == self.purchases[j],
            decreases self.purchases.len() - k,
        {
            purchases.push(
                PurchaseRecord {
                    buyer: self.purchases[k].buyer.clone(),
                    book_id: self.purchases[k].book_id,
                },
            );
            k = k + 1;
        }
        let admin = match &self.admin {
            Some(admin) => Some(admin.clone()),
            None => None,
        };
        let copy = HelloWorldContract { admin, shelves, purchases };
        proof {
            assert(copy@.books =~= self@.books);
            assert(copy@.tips =~= self@.tips);
            assert forall|p: (Seq<char>, u32)|
                copy@.purchases.contains(p) <==> self@.purchases.contains(p) by {
                if copy@.purchases.contains(p) {
                    let k = choose|k: int|
                        0 <= k < copy.purchases.len() && (#[trigger] copy.purchases[k]).buyer@
                            == p.0 && copy.purchases[k].book_id == p.1;
                    assert(self.purchases[k] == copy.purchases[k]);
                }
                if self@.purchases.contains(p) {
                    let k = choose|k: int|
                        0 <= k < self.purchases.len() && (#[trigger] self.purchases[k]).buyer@
                            == p.0 && self.purchases[k].book_id == p.1;
                    assert(copy.purchases[k] == self.purchases[k]);
                }
            }
            assert(copy@.purchases =~= self@.purchases);
            if self.wf() {
                assert forall|i: int, j: int|
                    0 <= i < copy.shelves.len() && 0 <= j < copy.shelves[i].tips.len() implies (
                    #[trigger] copy.shelves[i].tips[j]).amount > 0 by {
                    assert(copy.shelves[i].tips@[j] == self.shelves[i].tips@[j]);
                }
                assert forall|k: int| 0 <= k < copy.purchases.len() implies {
                    &&& 1 <= (#[trigger] copy.purchases[k]).book_id <= copy.shelves.len()
                    &&& copy.purchases[k].buyer@ != copy.shelves[copy.purchases[k].book_id
                        - 1].book.author_address@
                } by {
                    assert(copy.purchases[k] == self.purchases[k]);
                }
            }
        }
        copy
    }
}

impl HelloWorldContract {
    /// Whether the records are consistent. Every instance that [`Self::new`]
    /// has made and that only the calls below have changed is.
    pub closed spec fn wf(&self) -> bool {
        &&& self.shelves.len() <= u32::MAX
        &&& forall|i: int| 0 <= i < self.shelves.len() ==> (#[trigger] self.shelves[i]).book@.wf()
        &&& forall|i: int, j: int|
            0 <= i < self.shelves.len() && 0 <= j < self.shelves[i].tips.len() ==> (#[trigger]
            self.shelves[i].tips[j]).amount > 0
        &&& forall|k: int|
            0 <= k < self.purchases.len() ==> {
                &&& 1 <= (#[trigger] self.purchases[k]).book_id <= self.shelves.len()
                &&& self.purchases[k].buyer@ != self.shelves[self.purchases[k].book_id
                    - 1].book.author_address@
            }
    }

    /// Consistent records satisfy the invariant of the marketplace.
    pub proof fn lemma_wf_inv(&self)
        requires
            self.wf(),
        ensures
            self@.inv(),
    {
        let m = self@;
        assert forall|id: u32| #[trigger] m.books.contains_key(id) implies m.books[id].wf() by {
            assert(self.shelves[id - 1].book@.wf());
        }
        assert forall|id: u32, i: int|
            m.tips.contains_key(id) && 0 <= i < m.tips[id].len() implies (#[trigger]
            m.tips[id][i]).amount > 0 by {
            assert(self.shelves[id - 1].tips[i].amount > 0);
        }
        assert forall|buyer: Seq<char>, id: u32| #[trigger]
            m.purchases.contains((buyer, id)) implies m.books.contains_key(id)
            && m.books[id].author_address != buyer by {
            let k = choose|k: int|
                0 <= k < self.purchases.len() && (#[trigger] self.purchases[k]).buyer@ == buyer
                    && self.purchases[k].book_id == id;
            assert(1 <= self.purchases[k].book_id <= self.shelves.len());
        }
    }

    /// A marketplace with nothing on record.
    pub fn new() -> (r: HelloWorldContract)
        ensures
            r.wf(),
            r@ == Market::empty(),
    {
        let contract = HelloWorldContract {
            admin: None,
            shelves: Vec::new(),
            purchases: Vec::new(),
        };
        assert(contract@.books =~= Map::empty());
        assert(contract@.purchases =~= Set::empty());
        assert(contract@.tips =~= Map::empty());
        contract
    }

    /// The number of books published so far, which is the id of the last one.
    pub fn book_count(&self) -> (r: u32)
        requires
            self.wf(),
        ensures
            r == self@.counter,
    {
        self.shelves.len() as u32
    }

    /// Whether a record is kept under `key`.
    pub fn has(&self, key: &DataKey) -> (r: bool)
        requires
            self.wf(),
        ensures
            r == self@.has(key@),
    {
        match key {
            DataKey::Admin => self.admin.is_some(),
            DataKey::TokenIdCounter => self.shelves.len() > 0,
            DataKey::Book(id) => 1 <= *id && *id as usize <= self.shelves.len(),
            DataKey::Purchase(buyer, id) => self.purchased(buyer, *id),
            DataKey::Tips(id) => 1 <= *id && *id as usize <= self.shelves.len()
                && self.shelves[(*id - 1) as usize].tips.len() > 0,
        }
    }

    /// The record of the book with the given id, if there is one.
    fn lookup(&self, book_id: u32) -> (r: Option<&Book>)
        requires
            self.wf(),
        ensures
            book_view(r) == self@.book(book_id),
            r is Some ==> 1 <= book_id <= self.shelves.len() && *r->0 == self.shelves[book_id
                - 1].book,
    {
        if 1 <= book_id && book_id as usize <= self.shelves.len() {
            Some(&self.shelves[(book_id - 1) as usize].book)
        } else {
            None
        }
    }

    /// Whether the purchase of the book by `buyer` is on record.
    fn purchased(&self, buyer: &Address, book_id: u32) -> (r: bool)
        ensures
            r == self@.has_purchased(buyer@, book_id),
    {
        let mut k: usize = 0;
        while k < self.purchases.len()
            invariant
                k <= self.purchases.len(),
                forall|j: int|
                    0 <= j < k ==> !((#[trigger] self.purchases[j]).buyer@ == buyer@
                        && self.purchases[j].book_id == book_id),
            decreases self.purchases.len() - k,
        {
            if self.purchases[k].book_id == book_id && self.purchases[k].buyer == *buyer {
                return true;
            }
            k = k + 1;
        }
        false
    }

    /// Sets the admin, who receives the platform's fee of every purchase. It
    /// can be set once, by anyone; no later call replaces it.
    pub fn initialize(&mut self, admin: Address) -> (r: Result<(), Error>)
        requires
            old(self).wf(),
        ensures
            final(self).wf(),
            final(self)@ == old(self)@.step(Call::Initialize { admin: admin@ }),
            match r {
                Ok(()) => initialize_error(old(self)@.admin) is None && final(self)@ == old(
                    self,
                )@.initialized(admin@),
                Err(e) => initialize_error(old(self)@.admin) == Some(e) && final(self)@ == old(
                    self,
                )@,
            },
    {
        match rules::initialize(self.admin.as_ref(), admin) {
            Err(e) => Err(e),
            Ok(recorded) => {
                self.admin = Some(recorded);
                proof {
                    assert(self@.books =~= old(self)@.books);
                    assert(self@.purchases =~= old(self)@.purchases);
                    assert(self@.tips =~= old(self)@.tips);
                }
                Ok(())
            },
        }
    }

    /// Publishes a book for `author`, who must have consented, and returns its
    /// id: one more than the id of the book published before it, and one for
    /// the first. A special book offers `supply` copies, any other an
    /// unlimited number. Any price is taken.
    pub fn publish_book(
        &mut self,
        env: &Env,
        author: Address,
        title: String,
        author_name: String,
        description: String,
        price: i128,
        cover_uri: String,
        book_uri: String,
        is_special: bool,
        supply: u32,
    ) -> (r: Result<u32, Error>)
        requires
            old(self).wf(),
            old(self)@.counter < u32::MAX,
        ensures
            final(self).wf(),
            final(self)@ == old(self)@.step(
                Call::Publish {
                    authorized: env@.authorizes(author@),
                    author: author@,
                    title: title@,
                    author_name: author_name@,
                    description: description@,
                    price,
                    cover_uri: cover_uri@,
                    book_uri: book_uri@,
                    is_special,
                    supply,
                },
            ),
            match r {
                Ok(id) => {
                    &&& publish_error(env@.authorizes(author@)) is None
                    &&& id == old(self)@.next_id()
                    &&& id == old(self)@.counter + 1
                    &&& final(self)@ == old(self)@.published(
                        BookView::published(
                            author@,
                            title@,
                            author_name@,
                            description@,
                            price,
                            cover_uri@,
                            book_uri@,
                            is_special,
                            supply,
                        ),
                    )
                },
                Err(e) => publish_error(env@.authorizes(author@)) == Some(e) && final(self)@
                    == old(self)@,
            },
    {
        let counter: u32 = self.shelves.len() as u32;
        let decision = rules::publish(
            env,
            counter,
            author,
            title,
            author_name,
            description,
            price,
            cover_uri,
            book_uri,
            is_special,
            supply,
        );
        match decision {
            Err(e) => Err(e),
            Ok((id, book)) => {
                self.shelves.push(Shelf { book, tips: Vec::new() });
                proof {
                    let after = old(self)@.published(book@);
                    assert(self@.books =~= after.books);
                    assert(self@.purchases =~= after.purchases);
                    assert(self@.tips =~= after.tips);
                }
                Ok(id)
            },
        }
    }

    /// The record of the book with the given id, if there is one.
    pub fn get_book(&self, book_id: u32) -> (r: Option<Book>)
        requires
            self.wf(),
        ensures
            match r {
                Some(book) => self@.book(book_id) == Some(book@) && book@.wf(),
                None => self@.book(book_id) is None,
            },
    {
        match self.lookup(book_id) {
            Some(book) => Some(book.clone()),
            None => None,
        }
    }

    /// Sells a copy of the book to `buyer`, who must have consented: records
    /// the purchase, takes the copy off a special book's remaining supply, and
    /// returns the settlement of the price in the token at `token_address`, a
    /// tenth for the admin and the rest for the author.
    ///
    /// The call is rejected with the first reason that applies: the buyer has
    /// not consented, there is no such book, no copy is left, the buyer is the
    /// author, the buyer has bought the book before, no admin is set.
    pub fn buy_book(
        &mut self,
        env: &Env,
        buyer: Address,
        book_id: u32,
        token_address: Address,
    ) -> (r: Result<Settlement, Error>)
        requires
            old(self).wf(),
        ensures
            final(self).wf(),
            final(self)@ == old(self)@.step(
                Call::Buy { authorized: env@.authorizes(buyer@), buyer: buyer@, book_id },
            ),
            match r {
                Ok(settlement) => {
                    &&& old(self)@.buy_error(env@.authorizes(buyer@), buyer@, book_id) is None
                    &&& final(self)@ == old(self)@.bought(buyer@, book_id)
                    &&& settlement.fee == fee_of(old(self)@.books[book_id].price as int)
                    &&& settlement.author_amount == author_share(
                        old(self)@.books[book_id].price as int,
                    )
                    &&& settlement.fee + settlement.author_amount == old(
                        self,
                    )@.books[book_id].price
                    &&& transfers_view(settlement.transfers@) == old(self)@.buy_payments(
                        token_address@,
                        buyer@,
                        book_id,
                    )
                },
                Err(e) => old(self)@.buy_error(env@.authorizes(buyer@), buyer@, book_id) == Some(e)
                    && final(self)@ == old(self)@,
            },
    {
        let purchased = self.purchased(&buyer, book_id);
        let decision = rules::purchase(
            env,
            self.lookup(book_id),
            purchased,
            self.admin.as_ref(),
            &buyer,
            &token_address,
        );
        match decision {
            Err(e) => Err(e),
            Ok((settlement, sold)) => {
                let index: usize = (book_id - 1) as usize;
                self.purchases.push(PurchaseRecord { buyer, book_id });
                if sold.is_special {
                    self.shelves[index].book = sold;
                }
                proof {
                    let after = old(self)@.bought(buyer@, book_id);
                    assert(self.shelves[index as int].book@ == sold@);
                    assert(self@.books =~= after.books);
                    assert(self@.tips =~= after.tips);
                    assert forall|p: (Seq<char>, u32)|
                        self@.purchases.contains(p) <==> after.purchases.contains(p) by {
                        let before = old(self).purchases@;
                        let now = self.purchases@;
                        if self@.purchases.contains(p) {
                            let k = choose|k: int|
                                0 <= k < now.len() && (#[trigger] now[k]).buyer@ == p.0
                                    && now[k].book_id == p.1;
                            if k < before.len() {
                                assert(before[k] == now[k]);
                            }
                        }
                        if old(self)@.purchases.contains(p) {
                            let k = choose|k: int|
                                0 <= k < before.len() && (#[trigger] before[k]).buyer@ == p.0
                                    && before[k].book_id == p.1;
                            assert(now[k] == before[k]);
                        }
                        if p == (buyer@, book_id) {
                            assert(now[before.len() as int].buyer@ == p.0);
                        }
                    }
                    assert(self@.purchases =~= after.purchases);
                }
                Ok(settlement)
            },
        }
    }

    /// Whether `buyer` has bought the book with the given id.
    pub fn has_purchased(&self, buyer: Address, book_id: u32) -> (r: bool)
        ensures
            r == self@.has_purchased(buyer@, book_id),
    {
        self.purchased(&buyer, book_id)
    }

    /// Records a tip of `amount` by `sender`, who must have consented, for the
    /// author of the book, stamped with the ledger time of the call, and
    /// returns the transfer that pays it in the token at `token_address`. The
    /// tip goes to the end of the book's tips.
    ///
    /// The call is rejected with the first reason that applies: the sender has
    /// not consented, there is no such book, the amount is not greater than
    /// zero.
    pub fn tip_author(
        &mut self,
        env: &Env,
        sender: Address,
        book_id: u32,
        amount: i128,
        message: String,
        token_address: Address,
    ) -> (r: Result<Transfer, Error>)
        requires
            old(self).wf(),
        ensures
            final(self).wf(),
            final(self)@ == old(self)@.step(
                Call::Tip {
                    authorized: env@.authorizes(sender@),
                    sender: sender@,
                    book_id,
                    amount,
                    message: message@,
                    timestamp: env@.timestamp,
                },
            ),
            match r {
                Ok(transfer) => {
                    &&& old(self)@.tip_error(env@.authorizes(sender@), book_id, amount) is None
                    &&& final(self)@ == old(self)@.tipped(
                        book_id,
                        TipView {
                            sender: sender@,
                            amount,
                            message: message@,
                            timestamp: env@.timestamp,
                        },
                    )
                    &&& transfer@ == old(self)@.tip_payment(
                        token_address@,
                        sender@,
                        book_id,
                        amount,
                    )
                },
                Err(e) => old(self)@.tip_error(env@.authorizes(sender@), book_id, amount) == Some(
                    e,
                ) && final(self)@ == old(self)@,
            },
    {
        let decision = rules::tip(
            env,
            self.lookup(book_id),
            sender,
            amount,
            message,
            token_address,
        );
        match decision {
            Err(e) => Err(e),
            Ok((transfer, tip)) => {
                let index: usize = (book_id - 1) as usize;
                self.shelves[index].tips.push(tip);
                proof {
                    let after = old(self)@.tipped(book_id, tip@);
                    assert(tips_view(self.shelves[index as int].tips@) =~= old(self)@.tips_of(
                        book_id,
                    ).push(tip@));
                    assert(self@.books =~= after.books);
                    assert(self@.purchases =~= after.purchases);
                    assert(self@.tips =~= after.tips);
                }
                Ok(transfer)
            },
        }
    }

    /// The tips given for the book with the given id, oldest first; none where
    /// there is no such book or nobody has tipped yet.
    pub fn get_tips(&self, book_id: u32) -> (r: Vec<Tip>)
        requires
            self.wf(),
        ensures
            tips_view(r@) == self@.tips_of(book_id),
            forall|i: int| 0 <= i < r.len() ==> (#[trigger] r[i]).amount > 0,
    {
        if 1 <= book_id && book_id as usize <= self.shelves.len() {
            let tips = copy_tips(&self.shelves[(book_id - 1) as usize].tips);
            assert forall|i: int| 0 <= i < tips.len() implies (#[trigger] tips[i]).amount > 0 by {
                assert(self.shelves[book_id - 1].tips[i].amount > 0);
            }
            assert(tips_view(tips@) =~= self@.tips_of(book_id));
            tips
        } else {
            let tips: Vec<Tip> = Vec::new();
            assert(tips_view(tips@) =~= self@.tips_of(book_id));
            tips
        }
    }
}

} // verus!
