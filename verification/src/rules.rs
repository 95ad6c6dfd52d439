//! The rules of the marketplace, each as a decision on the records that it
//! concerns.
//!
//! A rule reads the records that the caller has fetched from the ledger and
//! says either why the call is rejected or what is to be written and paid. It
//! touches no storage and moves no funds itself.

use vstd::prelude::*;
use crate::address::Address;
use crate::book::{Book, BookView};
use crate::env::Env;
use crate::error::Error;
use crate::payment::{payments, settle, transfers_view, Settlement, Transfer, TransferView};
use crate::payment::{author_share, fee_of};
use crate::tip::{Tip, TipView};

verus! {

/// Why setting the admin is rejected, if it is: an admin is set only once.
pub open spec fn initialize_error(admin: Option<Seq<char>>) -> Option<Error> {
    if admin is Some {
        Some(Error::AlreadyInitialized)
    } else {
        None
    }
}

/// Why publishing is rejected, if it is: the author must consent.
pub open spec fn publish_error(authorized: bool) -> Option<Error> {
    if !authorized {
        Some(Error::Unauthorized)
    } else {
        None
    }
}

/// Why a purchase is rejected, if it is. The first reason that applies is
/// given: missing consent of the buyer, no such book, no copy left, the buyer
/// is the author, the buyer owns the book already, no admin to take the fee.
pub open spec fn purchase_error(
    authorized: bool,
    book: Option<BookView>,
    purchased: bool,
    admin: Option<Seq<char>>,
    buyer: Seq<char>,
) -> Option<Error> {
    if !authorized {
        Some(Error::Unauthorized)
    } else if book is None {
        Some(Error::NotFound)
    } else if book->0.remaining_supply == 0 {
        Some(Error::SoldOut)
    } else if buyer == book->0.author_address {
        Some(Error::SelfPurchase)
    } else if purchased {
        Some(Error::AlreadyPurchased)
    } else if admin is None {
        Some(Error::NotInitialized)
    } else {
        None
    }
}

/// Why a tip is rejected, if it is. The first reason that applies is given:
/// missing consent of the sender, no such book, an amount that is not greater
/// than zero.
pub open spec fn tip_error(authorized: bool, book: Option<BookView>, amount: i128) -> Option<
    Error,
> {
    if !authorized {
        Some(Error::Unauthorized)
    } else if book is None {
        Some(Error::NotFound)
    } else if amount <= 0 {
        Some(Error::NonPositiveAmount)
    } else {
        None
    }
}

/// What a record that may be absent says.
pub open spec fn book_view(book: Option<&Book>) -> Option<BookView> {
    match book {
        Some(b) => Some(b@),
        None => None,
    }
}

/// What an address that may be absent says.
pub open spec fn address_view(address: Option<&Address>) -> Option<Seq<char>> {
    match address {
        Some(a) => Some(a@),
        None => None,
    }
}

/// Decides on setting the admin, given the admin on record. On success the
/// result is the admin to record.
pub fn initialize(current: Option<&Address>, admin: Address) -> (r: Result<Address, Error>)
    ensures
        match r {
            Ok(recorded) => initialize_error(address_view(current)) is None && recorded == admin,
            Err(e) => initialize_error(address_view(current)) == Some(e),
        },
{
    match current {
        Some(_) => Err(Error::AlreadyInitialized),
        None => Ok(admin),
    }
}

/// Decides on publishing a book, given the id counter on record (zero before
/// the first book). On success the result is the new book's id, which is also
/// the counter to record, and the book's record.
pub fn publish(
    env: &Env,
    counter: u32,
    author: Address,
    title: String,
    author_name: String,
    description: String,
    price: i128,
    cover_uri: String,
    book_uri: String,
    is_special: bool,
    supply: u32,
) -> (r: Result<(u32, Book), Error>)
    requires
        counter < u32::MAX,
    ensures
        match r {
            Ok((id, book)) => {
                &&& publish_error(env@.authorizes(author@)) is None
                &&& id == counter + 1
                &&& book@ == BookView::published(
                    author@,
                    title@,
                    author_name@,
                    description@,
                    price,
                    cover_uri@,
                    book_uri@,
                    is_special,
                    supply,
                )
                &&& book@.wf()
            },
            Err(e) => publish_error(env@.authorizes(author@)) == Some(e),
        },
{
    if !env.authorizes(&author) {
        return Err(Error::Unauthorized);
    }
    let id: u32 = counter + 1;
    let book = Book::new(
        author,
        title,
        author_name,
        description,
        price,
        cover_uri,
        book_uri,
        is_special,
        supply,
    );
    Ok((id, book))
}

/// Decides on the purchase of a book by `buyer`, given the book's record,
/// whether the buyer's purchase of it is on record, and the admin on record.
/// On success the result is the settlement of the payment, in `token`, and the
/// book's record after the sale. The purchase is then to be recorded, and the
/// book's record written where the book is special.
pub fn purchase(
    env: &Env,
    book: Option<&Book>,
    purchased: bool,
    admin: Option<&Address>,
    buyer: &Address,
    token: &Address,
) -> (r: Result<(Settlement, Book), Error>)
    ensures
        match r {
            Ok((settlement, sold)) => {
                &&& purchase_error(
                    env@.authorizes(buyer@),
                    book_view(book),
                    purchased,
                    address_view(admin),
                    buyer@,
                ) is None
                &&& sold@ == book->0@.sold()
                &&& book->0@.wf() ==> sold@.wf()
                &&& settlement.fee == fee_of(sold.price as int)
                &&& settlement.author_amount == author_share(sold.price as int)
                &&& settlement.fee + settlement.author_amount == sold.price
                &&& transfers_view(settlement.transfers@) == payments(
                    token@,
                    buyer@,
                    admin->0@,
                    sold@.author_address,
                    sold.price,
                )
            },
            Err(e) => purchase_error(
                env@.authorizes(buyer@),
                book_view(book),
                purchased,
                address_view(admin),
                buyer@,
            ) == Some(e),
        },
{
    if !env.authorizes(buyer) {
        return Err(Error::Unauthorized);
    }
    let book = match book {
        Some(book) => book,
        None => {
            return Err(Error::NotFound);
        },
    };
    if book.remaining_supply == 0 {
        return Err(Error::SoldOut);
    }
    if *buyer == book.author_address {
        return Err(Error::SelfPurchase);
    }
    if purchased {
        return Err(Error::AlreadyPurchased);
    }
    let admin = match admin {
        Some(admin) => admin,
        None => {
            return Err(Error::NotInitialized);
        },
    };
    let settlement = settle(token, buyer, admin, &book.author_address, book.price);
    let sold = book.sell_one();
    Ok((settlement, sold))
}

/// What a tip of `amount` by `sender` for a book of `author` transfers.
pub open spec fn tip_transfer(token: Seq<char>, sender: Seq<char>, author: Seq<char>, amount: i128)
    -> TransferView {
    TransferView { token, from: sender, to: author, amount }
}

/// Decides on a tip by `sender` to the author of a book, given the book's
/// record. On success the result is the transfer that pays the tip, in
/// `token`, and the tip's record, stamped with the ledger time of the call.
/// The record is then to be added at the end of the book's tips.
pub fn tip(
    env: &Env,
    book: Option<&Book>,
    sender: Address,
    amount: i128,
    message: String,
    token: Address,
) -> (r: Result<(Transfer, Tip), Error>)
    ensures
        match r {
            Ok((transfer, tip)) => {
                &&& tip_error(env@.authorizes(sender@), book_view(book), amount) is None
                &&& transfer@ == tip_transfer(token@, sender@, book->0@.author_address, amount)
                &&& tip@ == (TipView {
                    sender: sender@,
                    amount,
                    message: message@,
                    timestamp: env@.timestamp,
                })
            },
            Err(e) => tip_error(env@.authorizes(sender@), book_view(book), amount) == Some(e),
        },
{
    if !env.authorizes(&sender) {
        return Err(Error::Unauthorized);
    }
    let book = match book {
        Some(book) => book,
        None => {
            return Err(Error::NotFound);
        },
    };
    if amount <= 0 {
        return Err(Error::NonPositiveAmount);
    }
    let transfer = Transfer {
        token,
        from: sender.clone(),
        to: book.author_address.clone(),
        amount,
    };
    let tip = Tip { sender, amount, message, timestamp: env.timestamp() };
    Ok((transfer, tip))
}

} // verus!
