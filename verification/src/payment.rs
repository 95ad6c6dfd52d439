//! Splitting the price of a book between the platform and its author.

use vstd::prelude::*;
use vstd::std_specs::cmp::PartialEqSpecImpl;
use crate::address::Address;

verus! {

/// The platform's share of `price`: a tenth of it, rounded toward zero.
pub open spec fn fee_of(price: int) -> int {
    if price >= 0 {
        price / 10
    } else {
        -((-price) / 10)
    }
}

/// The author's share of `price`: what the platform's fee leaves.
pub open spec fn author_share(price: int) -> int {
    price - fee_of(price)
}

/// A movement of funds that the ledger's token is to carry out.
#[derive(Debug)]
pub struct Transfer {
    /// The token in which the amount is held.
    pub token: Address,
    pub from: Address,
    pub to: Address,
    pub amount: i128,
}

/// What a [`Transfer`] says.
pub struct TransferView {
    pub token: Seq<char>,
    pub from: Seq<char>,
    pub to: Seq<char>,
    pub amount: i128,
}

impl View for Transfer {
    type V = TransferView;

    open spec fn view(&self) -> TransferView {
        TransferView {
            token: self.token@,
            from: self.from@,
            to: self.to@,
            amount: self.amount,
        }
    }
}

impl Clone for Transfer {
    fn clone(&self) -> (r: Transfer)
        ensures
            r == *self,
    {
        Transfer {
            token: self.token.clone(),
            from: self.from.clone(),
            to: self.to.clone(),
            amount: self.amount,
        }
    }
}

impl PartialEq for Transfer {
    fn eq(&self, other: &Transfer) -> (r: bool) {
        self.token == other.token && self.from == other.from && self.to == other.to
            && self.amount == other.amount
    }
}

impl Eq for Transfer {}

impl PartialEqSpecImpl for Transfer {
    open spec fn obeys_eq_spec() -> bool {
        true
    }

    open spec fn eq_spec(&self, other: &Transfer) -> bool {
        self@ == other@
    }
}

/// What a list of transfers says, transfer by transfer.
pub open spec fn transfers_view(transfers: Seq<Transfer>) -> Seq<TransferView> {
    transfers.map_values(|t: Transfer| t@)
}

/// The transfers that pay for one copy at `price`: the fee from the buyer to
/// the admin, then the rest from the buyer to the author. A share that is not
/// greater than zero is not transferred.
pub open spec fn payments(
    token: Seq<char>,
    buyer: Seq<char>,
    admin: Seq<char>,
    author: Seq<char>,
    price: i128,
) -> Seq<TransferView> {
    let fee = fee_of(price as int);
    let rest = author_share(price as int);
    let to_admin = if fee > 0 {
        seq![TransferView { token, from: buyer, to: admin, amount: fee as i128 }]
    } else {
        Seq::empty()
    };
    let to_author = if rest > 0 {
        seq![TransferView { token, from: buyer, to: author, amount: rest as i128 }]
    } else {
        Seq::empty()
    };
    to_admin + to_author
}

/// How the payment for one copy is settled.
#[derive(Debug, PartialEq, Eq)]
pub struct Settlement {
    /// The platform's share of the price.
    pub fee: i128,
    /// The author's share of the price.
    pub author_amount: i128,
    /// The transfers to carry out, in this order.
    pub transfers: Vec<Transfer>,
}

/// The fee is the tenth of the price with its fraction dropped: ten times the
/// fee is the multiple of ten that is nearest to the price on the side of
/// zero. The fee and the author's share add up to the price, and neither is
/// further from zero than the price.
pub proof fn lemma_fee_is_truncated_tenth(price: int)
    ensures
        fee_of(price) + author_share(price) == price,
        price >= 0 ==> 10 * fee_of(price) <= price < 10 * fee_of(price) + 10,
        price <= 0 ==> 10 * fee_of(price) - 10 < price <= 10 * fee_of(price),
        price >= 0 ==> 0 <= fee_of(price) <= price && 0 <= author_share(price) <= price,
        price <= 0 ==> price <= fee_of(price) <= 0 && price <= author_share(price) <= 0,
{
}

/// Splits `price` into the platform's fee and the author's share.
pub fn split(price: i128) -> (r: (i128, i128))
    ensures
        r.0 == fee_of(price as int),
        r.1 == author_share(price as int),
        r.0 + r.1 == price,
{
    let fee: i128 = price / 10;
    let author_amount: i128 = price - fee;
    (fee, author_amount)
}

/// Settles the payment for one copy at `price`, bought by `buyer` from
/// `author`, with the fee going to `admin`.
pub fn settle(
    token: &Address,
    buyer: &Address,
    admin: &Address,
    author: &Address,
    price: i128,
) -> (r: Settlement)
    ensures
        r.fee == fee_of(price as int),
        r.author_amount == author_share(price as int),
        r.fee + r.author_amount == price,
        transfers_view(r.transfers@) == payments(token@, buyer@, admin@, author@, price),
{
    let (fee, author_amount) = split(price);
    let mut transfers: Vec<Transfer> = Vec::new();
    if fee > 0 {
        transfers.push(
            Transfer { token: token.clone(), from: buyer.clone(), to: admin.clone(), amount: fee },
        );
    }
    if author_amount > 0 {
        transfers.push(
            Transfer {
                token: token.clone(),
                from: buyer.clone(),
                to: author.clone(),
                amount: author_amount,
            },
        );
    }
    assert(transfers_view(transfers@) =~= payments(token@, buyer@, admin@, author@, price));
    Settlement { fee, author_amount, transfers }
}

} // verus!
