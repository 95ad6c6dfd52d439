//! The reasons for which the marketplace rejects a call.

use vstd::prelude::*;

verus! {

/// Why a call was rejected. A rejected call changes nothing.
#[derive(Clone, Copy, Debug, PartialEq, Eq, Structural)]
pub enum Error {
    /// The fee recipient has been set before.
    AlreadyInitialized,
    /// No fee recipient has been set yet.
    NotInitialized,
    /// The identity whose consent the call needs has not given it.
    Unauthorized,
    /// No book has the given id.
    NotFound,
    /// No copy of the book is left.
    SoldOut,
    /// The buyer is the author of the book.
    SelfPurchase,
    /// The buyer owns the book already.
    AlreadyPurchased,
    /// A tip must be greater than zero.
    NonPositiveAmount,
}

impl Error {
    /// The reason in words.
    pub open spec fn reason(self) -> Seq<char> {
        match self {
            Error::AlreadyInitialized => "Already initialized"@,
            Error::NotInitialized => "Contract not initialized"@,
            Error::Unauthorized => "Caller has not authorized this call"@,
            Error::NotFound => "Book not found"@,
            Error::SoldOut => "Book is sold out"@,
            Error::SelfPurchase => "Author cannot buy their own book"@,
            Error::AlreadyPurchased => "You have already bought this book"@,
            Error::NonPositiveAmount => "Tip amount must be positive"@,
        }
    }

    /// The reason in words, as it is shown to the caller.
    pub fn message(&self) -> (r: &'static str)
        ensures
            r@ == self.reason(),
    {
        match self {
            Error::AlreadyInitialized => "Already initialized",
            Error::NotInitialized => "Contract not initialized",
            Error::Unauthorized => "Caller has not authorized this call",
            Error::NotFound => "Book not found",
            Error::SoldOut => "Book is sold out",
            Error::SelfPurchase => "Author cannot buy their own book",
            Error::AlreadyPurchased => "You have already bought this book",
            Error::NonPositiveAmount => "Tip amount must be positive",
        }
    }

    /// Different rejections are told to the caller in different words.
    pub proof fn lemma_reasons_differ(a: Error, b: Error)
        requires
            a != b,
        ensures
            a.reason() != b.reason(),
    {
        reveal_strlit("Already initialized");
        reveal_strlit("Contract not initialized");
        reveal_strlit("Caller has not authorized this call");
        reveal_strlit("Book not found");
        reveal_strlit("Book is sold out");
        reveal_strlit("Author cannot buy their own book");
        reveal_strlit("You have already bought this book");
        reveal_strlit("Tip amount must be positive");
        assert(a.reason().len() != b.reason().len());
    }
}

} // verus!
