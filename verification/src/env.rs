//! What the host tells the marketplace about the call in progress.

use vstd::prelude::*;
use crate::address::Address;

verus! {

/// The host's side of one call: who has consented to it, and the ledger time.
///
/// The host verifies consent and keeps the clock. The marketplace only asks.
#[derive(Debug)]
pub struct Env {
    signers: Vec<Address>,
    timestamp: u64,
}

/// What an [`Env`] says.
pub struct EnvView {
    /// The identities that have consented to the call.
    pub signers: Set<Seq<char>>,
    /// The ledger time of the call.
    pub timestamp: u64,
}

impl EnvView {
    /// Whether `who` has consented to the call.
    pub open spec fn authorizes(self, who: Seq<char>) -> bool {
        self.signers.contains(who)
    }
}

impl View for Env {
    type V = EnvView;

    closed spec fn view(&self) -> EnvView {
        EnvView {
            signers: Set::new(
                |who: Seq<char>|
                    exists|i: int| 0 <= i < self.signers.len() && (#[trigger] self.signers[i])@ == who,
            ),
            timestamp: self.timestamp,
        }
    }
}

impl Env {
    /// A call at ledger time `timestamp` to which nobody has consented yet.
    pub fn new(timestamp: u64) -> (r: Env)
        ensures
            r@ == (EnvView { signers: Set::empty(), timestamp }),
    {
        let env = Env { signers: Vec::new(), timestamp };
        assert(env@.signers =~= Set::empty());
        env
    }

    /// Records that `who` has consented to the call.
    pub fn authorize(&mut self, who: Address)
        ensures
            final(self)@ == (EnvView { signers: old(self)@.signers.insert(who@), ..old(self)@ }),
    {
        self.signers.push(who);
        proof {
            let before = old(self).signers@;
            let after = self.signers@;
            assert forall|k: Seq<char>| self@.signers.contains(k) <==> old(self)@.signers.insert(
                who@,
            ).contains(k) by {
                if self@.signers.contains(k) {
                    let i = choose|i: int| 0 <= i < after.len() && (#[trigger] after[i])@ == k;
                    if i < before.len() {
                        assert(before[i]@ == k);
                    }
                }
                if old(self)@.signers.contains(k) {
                    let i = choose|i: int| 0 <= i < before.len() && (#[trigger] before[i])@ == k;
                    assert(after[i]@ == k);
                }
                if k == who@ {
                    assert(after[before.len() as int]@ == k);
                }
            }
            assert(self@.signers =~= old(self)@.signers.insert(who@));
        }
    }

    /// Whether `who` has consented to the call.
    pub fn authorizes(&self, who: &Address) -> (r: bool)
        ensures
            r == self@.authorizes(who@),
    {
        let mut i: usize = 0;
        while i < self.signers.len()
            invariant
                i <= self.signers.len(),
                forall|j: int| 0 <= j < i ==> (#[trigger] self.signers[j])@ != who@,
            decreases self.signers.len() - i,
        {
            if self.signers[i] == *who {
                return true;
            }
            i = i + 1;
        }
        false
    }

    /// The ledger time of the call.
    pub fn timestamp(&self) -> (r: u64)
        ensures
            r == self@.timestamp,
    {
        self.timestamp
    }
}

} // verus!
