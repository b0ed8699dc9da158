//! An engine that delegates to one of two engines sharing a digest type, and can switch
//! between them.
use vstd::prelude::*;

use crate::header::{Consensus, Header};

verus! {

/// Holds two engines over one digest type; `validate` and `seal` go to the active one.
#[derive(Clone, Debug)]
pub struct AlternatingPowPoa<A, B> {
    pub first: A,
    pub second: B,
    /// Whether `first` is the active engine.
    pub first_active: bool,
}

impl<A: Consensus, B: Consensus<Digest = A::Digest>> AlternatingPowPoa<A, B> {
    /// Starts with `first` active.
    pub fn new(first: A, second: B) -> (r: AlternatingPowPoa<A, B>)
        ensures
            r.first == first,
            r.second == second,
            r.first_active,
    {
        AlternatingPowPoa { first, second, first_active: true }
    }

    /// Makes the other engine the active one.
    pub fn toggle_engine(&mut self)
        ensures
            final(self).first == old(self).first,
            final(self).second == old(self).second,
            final(self).first_active == !old(self).first_active,
    {
        self.first_active = !self.first_active;
    }
}

impl<A: Consensus, B: Consensus<Digest = A::Digest>> Consensus for AlternatingPowPoa<A, B> {
    type Digest = A::Digest;

    open spec fn accepts(&self, parent_digest: A::Digest, header: Header<A::Digest>) -> bool {
        if self.first_active {
            self.first.accepts(parent_digest, header)
        } else {
            self.second.accepts(parent_digest, header)
        }
    }

    open spec fn sealed(&self, parent_digest: A::Digest, partial: Header<()>) -> Option<Header<A::Digest>> {
        if self.first_active {
            self.first.sealed(parent_digest, partial)
        } else {
            self.second.sealed(parent_digest, partial)
        }
    }

    proof fn lemma_sealed_accepted(&self, parent_digest: A::Digest, partial: Header<()>) {
        self.first.lemma_sealed_accepted(parent_digest, partial);
        self.second.lemma_sealed_accepted(parent_digest, partial);
    }

    fn validate(&self, parent_digest: &A::Digest, header: &Header<A::Digest>) -> (r: bool) {
        if self.first_active {
            self.first.validate(parent_digest, header)
        } else {
            self.second.validate(parent_digest, header)
        }
    }

    fn seal(&self, parent_digest: &A::Digest, partial_header: Header<()>) -> (r: Option<Header<A::Digest>>) {
        if self.first_active {
            self.first.seal(parent_digest, partial_header)
        } else {
            self.second.seal(parent_digest, partial_header)
        }
    }
}

} // verus!
