//! The marketplace as a state machine: what is on record, and what each call
//! makes of it.

use vstd::prelude::*;
use crate::book::BookView;
use crate::error::Error;
use crate::payment::{payments, TransferView};
use crate::rules::{initialize_error, publish_error, purchase_error, tip_error, tip_transfer};
use crate::storage::DataKeyView;
use crate::tip::TipView;

verus! {

/// All that the marketplace has on record.
pub struct Market {
    /// The recipient of the platform's fees, once it is set.
    pub admin: Option<Seq<char>>,
    /// The id of the book published last; zero before the first.
    pub counter: nat,
    /// The books, by id.
    pub books: Map<u32, BookView>,
    /// The purchases made: who bought which book.
    pub purchases: Set<(Seq<char>, u32)>,
    /// The tips given for each book that has received any, oldest first.
    pub tips: Map<u32, Seq<TipView>>,
}

impl Market {
    /// The marketplace before the first call.
    pub open spec fn empty() -> Market {
        Market {
            admin: None,
            counter: 0,
            books: Map::empty(),
            purchases: Set::empty(),
            tips: Map::empty(),
        }
    }

    /// What holds of the records at all times: the books are those with the
    /// ids from one up to the counter, every one of them well formed; tips are
    /// on record only for books, and each gave more than zero; nobody has
    /// bought a book that is missing or their own.
    pub open spec fn inv(self) -> bool {
        &&& self.counter <= u32::MAX
        &&& forall|id: u32| #[trigger] self.books.contains_key(id) <==> 1 <= id <= self.counter
        &&& forall|id: u32| #[trigger] self.books.contains_key(id) ==> self.books[id].wf()
        &&& forall|id: u32| #[trigger]
            self.tips.contains_key(id) ==> self.books.contains_key(id) && self.tips[id].len() > 0
        &&& forall|id: u32, i: int|
            self.tips.contains_key(id) && 0 <= i < self.tips[id].len() ==> (#[trigger]
            self.tips[id][i]).amount > 0
        &&& forall|buyer: Seq<char>, id: u32| #[trigger]
            self.purchases.contains((buyer, id)) ==> self.books.contains_key(id)
                && self.books[id].author_address != buyer
    }

    /// Whether a record is kept under `key`. The counter is kept from the first
    /// book on, the tips of a book from its first tip on.
    pub open spec fn has(self, key: DataKeyView) -> bool {
        match key {
            DataKeyView::Admin => self.admin is Some,
            DataKeyView::TokenIdCounter => self.counter > 0,
            DataKeyView::Book(id) => self.books.contains_key(id),
            DataKeyView::Purchase(buyer, id) => self.purchases.contains((buyer, id)),
            DataKeyView::Tips(id) => self.tips.contains_key(id),
        }
    }

    /// The record of the book with the given id, if there is one.
    pub open spec fn book(self, book_id: u32) -> Option<BookView> {
        if self.books.contains_key(book_id) {
            Some(self.books[book_id])
        } else {
            None
        }
    }

    /// Whether `buyer` has bought the book with the given id.
    pub open spec fn has_purchased(self, buyer: Seq<char>, book_id: u32) -> bool {
        self.purchases.contains((buyer, book_id))
    }

    /// The tips given for the book with the given id, oldest first; none where
    /// none is on record.
    pub open spec fn tips_of(self, book_id: u32) -> Seq<TipView> {
        if self.tips.contains_key(book_id) {
            self.tips[book_id]
        } else {
            Seq::empty()
        }
    }

    /// The id that the next book gets.
    pub open spec fn next_id(self) -> u32 {
        (self.counter + 1) as u32
    }

    /// The records after `admin` has been set.
    pub open spec fn initialized(self, admin: Seq<char>) -> Market {
        Market { admin: Some(admin), ..self }
    }

    /// The records after `book` has been published under the next id.
    pub open spec fn published(self, book: BookView) -> Market {
        Market {
            counter: self.counter + 1,
            books: self.books.insert(self.next_id(), book),
            ..self
        }
    }

    /// Why the purchase of a book by `buyer` is rejected, if it is.
    pub open spec fn buy_error(self, authorized: bool, buyer: Seq<char>, book_id: u32) -> Option<
        Error,
    > {
        purchase_error(
            authorized,
            self.book(book_id),
            self.has_purchased(buyer, book_id),
            self.admin,
            buyer,
        )
    }

    /// The records after `buyer` has bought a copy of the book.
    pub open spec fn bought(self, buyer: Seq<char>, book_id: u32) -> Market {
        Market {
            books: self.books.insert(book_id, self.books[book_id].sold()),
            purchases: self.purchases.insert((buyer, book_id)),
            ..self
        }
    }

    /// The transfers that pay for a copy of the book, bought by `buyer`.
    pub open spec fn buy_payments(self, token: Seq<char>, buyer: Seq<char>, book_id: u32) -> Seq<
        TransferView,
    > {
        payments(
            token,
            buyer,
            self.admin->0,
            self.books[book_id].author_address,
            self.books[book_id].price,
        )
    }

    /// Why a tip for a book is rejected, if it is.
    pub open spec fn tip_error(self, authorized: bool, book_id: u32, amount: i128) -> Option<
        Error,
    > {
        tip_error(authorized, self.book(book_id), amount)
    }

    /// The records after `tip` has been given for the book.
    pub open spec fn tipped(self, book_id: u32, tip: TipView) -> Market {
        Market { tips: self.tips.insert(book_id, self.tips_of(book_id).push(tip)), ..self }
    }

    /// The transfer that pays a tip of `amount` by `sender` for the book.
    pub open spec fn tip_payment(
        self,
        token: Seq<char>,
        sender: Seq<char>,
        book_id: u32,
        amount: i128,
    ) -> TransferView {
        tip_transfer(token, sender, self.books[book_id].author_address, amount)
    }
}

/// A call that changes the records, with what the host says of it.
pub enum Call {
    /// Set the admin.
    Initialize { admin: Seq<char> },
    /// Publish a book.
    Publish {
        /// Whether the author has consented.
        authorized: bool,
        author: Seq<char>,
        title: Seq<char>,
        author_name: Seq<char>,
        description: Seq<char>,
        price: i128,
        cover_uri: Seq<char>,
        book_uri: Seq<char>,
        is_special: bool,
        supply: u32,
    },
    /// Buy a copy of a book.
    Buy {
        /// Whether the buyer has consented.
        authorized: bool,
        buyer: Seq<char>,
        book_id: u32,
    },
    /// Tip the author of a book.
    Tip {
        /// Whether the sender has consented.
        authorized: bool,
        sender: Seq<char>,
        book_id: u32,
        amount: i128,
        message: Seq<char>,
        /// The ledger time of the call.
        timestamp: u64,
    },
}

impl Call {
    /// The record of the book that a call to publish asks for.
    pub open spec fn book(self) -> BookView
        recommends
            self is Publish,
    {
        BookView::published(
            self->author,
            self->title,
            self->author_name,
            self->description,
            self->price,
            self->cover_uri,
            self->book_uri,
            self->is_special,
            self->supply,
        )
    }

    /// The record of the tip that a call to tip asks for.
    pub open spec fn tip(self) -> TipView
        recommends
            self is Tip,
    {
        TipView {
            sender: self->sender,
            amount: self->amount,
            message: self->message,
            timestamp: self->timestamp,
        }
    }
}

impl Market {
    /// Why `call` is rejected, if it is. A call to publish is also not taken
    /// once the ids have run out.
    pub open spec fn rejection(self, call: Call) -> Option<Error> {
        match call {
            Call::Initialize { .. } => initialize_error(self.admin),
            Call::Publish { authorized, .. } => publish_error(authorized),
            Call::Buy { authorized, buyer, book_id } => self.buy_error(authorized, buyer, book_id),
            Call::Tip { authorized, book_id, amount, .. } => self.tip_error(
                authorized,
                book_id,
                amount,
            ),
        }
    }

    /// Whether `call` succeeds.
    pub open spec fn accepts(self, call: Call) -> bool {
        &&& self.rejection(call) is None
        &&& call is Publish ==> self.counter < u32::MAX
    }

    /// The records after `call`: changed as the call asks where it succeeds,
    /// unchanged where it does not.
    pub open spec fn step(self, call: Call) -> Market {
        if !self.accepts(call) {
            self
        } else {
            match call {
                Call::Initialize { admin } => self.initialized(admin),
                Call::Publish { .. } => self.published(call.book()),
                Call::Buy { buyer, book_id, .. } => self.bought(buyer, book_id),
                Call::Tip { book_id, .. } => self.tipped(book_id, call.tip()),
            }
        }
    }

    /// The records after `calls`, made one after the other.
    pub open spec fn run(self, calls: Seq<Call>) -> Market
        decreases calls.len(),
    {
        if calls.len() == 0 {
            self
        } else {
            self.run(calls.drop_last()).step(calls.last())
        }
    }
}

} // verus!
