//! Tips given to the author of a book.

use vstd::prelude::*;
use vstd::std_specs::cmp::PartialEqSpecImpl;
use crate::address::Address;

verus! {

/// One tip, as it is kept on the ledger. A tip is never changed or removed.
#[derive(Debug)]
pub struct Tip {
    pub sender: Address,
    /// The amount given, greater than zero.
    pub amount: i128,
    pub message: String,
    /// The ledger time at which the tip was given.
    pub timestamp: u64,
}

/// What a [`Tip`] record says.
pub struct TipView {
    pub sender: Seq<char>,
    pub amount: i128,
    pub message: Seq<char>,
    pub timestamp: u64,
}

impl View for Tip {
    type V = TipView;

    open spec fn view(&self) -> TipView {
        TipView {
            sender: self.sender@,
            amount: self.amount,
            message: self.message@,
            timestamp: self.timestamp,
        }
    }
}

impl Clone for Tip {
    fn clone(&self) -> (r: Tip)
        ensures
            r == *self,
    {
        Tip {
            sender: self.sender.clone(),
            amount: self.amount,
            message: self.message.clone(),
            timestamp: self.timestamp,
        }
    }
}

impl PartialEq for Tip {
    fn eq(&self, other: &Tip) -> (r: bool) {
        self.sender == other.sender && self.amount == other.amount && self.message == other.message
            && self.timestamp == other.timestamp
    }
}

impl Eq for Tip {}

impl PartialEqSpecImpl for Tip {
    open spec fn obeys_eq_spec() -> bool {
        true
    }

    open spec fn eq_spec(&self, other: &Tip) -> bool {
        self@ == other@
    }
}

/// What a list of tips says, tip by tip.
pub open spec fn tips_view(tips: Seq<Tip>) -> Seq<TipView> {
    tips.map_values(|t: Tip| t@)
}

/// Copies a list of tips.
pub fn copy_tips(tips: &Vec<Tip>) -> (r: Vec<Tip>)
    ensures
        r@ == tips@,
{
    let mut copy: Vec<Tip> = Vec::new();
    let mut i: usize = 0;
    while i < tips.len()
        invariant
            i <= tips.len(),
            copy@ == tips@.subrange(0, i as int),
        decreases tips.len() - i,
    {
        copy.push(tips[i].clone());
        i = i + 1;
    }
    copy
}

} // verus!
