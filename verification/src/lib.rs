//! A verified core for a ledger-resident marketplace of digital books.
//!
//! Authors publish books with a price and an optional limited supply, buyers
//! purchase copies with the payment split between the author and the platform,
//! and supporters tip an author against a book. The host ledger that stores the
//! records, authenticates callers and moves funds stays outside: every rule of
//! the marketplace is a function on plain values here, and
//! [`HelloWorldContract`] composes those rules into the state machine of one
//! contract instance.

pub mod address;
pub mod book;
pub mod contract;
pub mod env;
pub mod error;
pub mod laws;
pub mod market;
pub mod payment;
pub mod rules;
pub mod storage;
pub mod tip;

pub use address::Address;
pub use book::{Book, BookView};
pub use contract::HelloWorldContract;
pub use env::{Env, EnvView};
pub use error::Error;
pub use market::{Call, Market};
pub use payment::{Settlement, Transfer, TransferView};
pub use storage::{DataKey, DataKeyView, Tier};
pub use tip::{Tip, TipView};
