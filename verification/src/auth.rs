use vstd::prelude::*;
use crate::envelope::Address;

verus! {

/// The proofs of intent that one call carries: the principals that have
/// authorized it.
pub struct Authorization {
    signers: Vec<Address>,
}

impl View for Authorization {
    type V = Set<Seq<u8>>;

    closed spec fn view(&self) -> Set<Seq<u8>> {
        Set::new(|p: Seq<u8>| exists|i: int| 0 <= i < self.signers@.len() && #[trigger] self.signers@[i]@ == p)
    }
}

impl Authorization {
    /// A call that nobody has authorized.
    pub fn none() -> (auth: Authorization)
        ensures
            auth@ == Set::<Seq<u8>>::empty(),
    {
        let auth = Authorization { signers: Vec::new() };
        proof {
            assert(auth@ =~= Set::<Seq<u8>>::empty());
        }
        auth
    }

    /// A call authorized by `principal` alone.
    pub fn from_signer(principal: Address) -> (auth: Authorization)
        ensures
            auth@ == Set::<Seq<u8>>::empty().insert(principal@),
    {
        let mut auth = Authorization::none();
        auth.grant(principal);
        auth
    }

    /// Adds the proof of intent of `principal`.
    pub fn grant(&mut self, principal: Address)
        ensures
            final(self)@ == old(self)@.insert(principal@),
    {
        let ghost before = self.signers@;
        self.signers.push(principal);
        proof {
            let after = self.signers@;
            assert forall|p: Seq<u8>| final(self)@.contains(p) == old(self)@.insert(principal@).contains(p) by {
                if old(self)@.contains(p) {
                    let i = choose|i: int| 0 <= i < before.len() && #[trigger] before[i]@ == p;
                    assert(after[i]@ == p);
                }
                if p == principal@ {
                    assert(after[before.len() as int]@ == p);
                }
                if final(self)@.contains(p) {
                    let i = choose|i: int| 0 <= i < after.len() && #[trigger] after[i]@ == p;
                    if i < before.len() {
                        assert(before[i]@ == p);
                    }
                }
            }
            assert(final(self)@ =~= old(self)@.insert(principal@));
        }
    }

    /// Whether the call carries proof of intent from `principal`.
    pub fn authorizes(&self, principal: &Address) -> (yes: bool)
        ensures
            yes == self@.contains(principal@),
    {
        let mut i: usize = 0;
        while i < self.signers.len()
            invariant
                i <= self.signers@.len(),
                forall|j: int| 0 <= j < i ==> self.signers@[j]@ != principal@,
            decreases self.signers.len() - i,
        {
            if self.signers[i].same(principal) {
                return true;
            }
            i += 1;
        }
        false
    }
}

} // verus!
