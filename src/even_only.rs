//! A restriction of any engine: on top of the inner rule, the state root must be even.
use vstd::prelude::*;

use crate::driver::{chain_sound, link_fault, prior, sound_up_to, ChainFault};
use crate::header::{hash_of, header_hash, Consensus, Header};
use crate::pow::{moderate_difficulty_pow, PoW};

verus! {

/// Wraps an inner engine and accepts only headers with an even state root.
#[derive(Clone, Debug)]
pub struct EvenOnly<Inner> {
    pub inner: Inner,
}

impl<Inner: Consensus> EvenOnly<Inner> {
    pub fn new(inner: Inner) -> (r: EvenOnly<Inner>)
        ensures
            r.inner == inner,
    {
        EvenOnly { inner }
    }
}

impl<Inner: Consensus> Consensus for EvenOnly<Inner> {
    type Digest = Inner::Digest;

    open spec fn accepts(&self, parent_digest: Inner::Digest, header: Header<Inner::Digest>) -> bool {
        self.inner.accepts(parent_digest, header) && header.state_root % 2 == 0
    }

    open spec fn sealed(&self, parent_digest: Inner::Digest, partial: Header<()>) -> Option<Header<Inner::Digest>> {
        if partial.state_root % 2 == 0 {
            self.inner.sealed(parent_digest, partial)
        } else {
            None
        }
    }

    proof fn lemma_sealed_accepted(&self, parent_digest: Inner::Digest, partial: Header<()>) {
        self.inner.lemma_sealed_accepted(parent_digest, partial);
    }

    /// Accepts iff the inner engine does and the state root is even.
    fn validate(&self, parent_digest: &Inner::Digest, header: &Header<Inner::Digest>) -> (r: bool) {
        let inner_ok = self.inner.validate(parent_digest, header);
        inner_ok && header.state_root % 2 == 0
    }

    /// Seals with the inner engine; `None` when the state root is odd.
    fn seal(&self, parent_digest: &Inner::Digest, partial_header: Header<()>) -> (r: Option<Header<Inner::Digest>>) {
        if partial_header.state_root % 2 != 0 {
            return None;
        }
        self.inner.seal(parent_digest, partial_header)
    }
}

/// On a chain that the inner engine accepts, `EvenOnly` rejects exactly the headers with an odd
/// state root, so a check of the chain stops at the first odd one and no later header changes
/// that.
pub proof fn lemma_even_only_first_odd<E: Consensus>(
    engine: EvenOnly<E>,
    start: Header<E::Digest>,
    chain: Seq<Header<E::Digest>>,
)
    requires
        chain_sound(engine.inner, start, chain),
    ensures
        forall|i: int|
            0 <= i < chain.len() ==> #[trigger] link_fault(engine, prior(start, chain, i), chain[i])
                == if chain[i].state_root % 2 == 0 {
                None
            } else {
                Some(ChainFault::ConsensusRejected)
            },
        forall|n: int|
            0 <= n <= chain.len() ==> (#[trigger] sound_up_to(engine, start, chain, n) <==> forall|j: int|
                0 <= j < n ==> #[trigger] chain[j].state_root % 2 == 0),
{
    assert forall|i: int| 0 <= i < chain.len() implies #[trigger] link_fault(engine, prior(start, chain, i), chain[i])
        == if chain[i].state_root % 2 == 0 {
        None
    } else {
        Some(ChainFault::ConsensusRejected)
    } by {
        assert(link_fault(engine.inner, prior(start, chain, i), chain[i]) is None);
    }
    assert forall|n: int| 0 <= n <= chain.len() implies (#[trigger] sound_up_to(engine, start, chain, n) <==> forall|j: int|
        0 <= j < n ==> #[trigger] chain[j].state_root % 2 == 0) by {
        if sound_up_to(engine, start, chain, n) {
            assert forall|j: int| 0 <= j < n implies #[trigger] chain[j].state_root % 2 == 0 by {
                assert(link_fault(engine, prior(start, chain, j), chain[j]) is None);
            }
        }
    }
}

/// The state roots of the blocks that `almost_valid_but_not_all_even` builds on genesis.
pub open spec fn almost_even_states() -> Seq<u64> {
    seq![2, 3, 4, 6]
}

/// The genesis header that `almost_valid_but_not_all_even` builds on: every field zero.
pub open spec fn pow_genesis() -> Header<u64> {
    Header { parent: 0, height: 0, extrinsics_root: 0, state_root: 0, consensus_digest: 0 }
}

/// The partial header that `almost_valid_but_not_all_even` seals on top of `prev` as its block
/// at position `i`.
pub open spec fn almost_even_partial(prev: Header<u64>, i: int) -> Header<()> {
    Header {
        parent: hash_of(prev),
        height: (i + 1) as u64,
        extrinsics_root: i as u64,
        state_root: almost_even_states()[i],
        consensus_digest: (),
    }
}

/// `chain` has the state roots that `almost_valid_but_not_all_even` asks for, as far as it goes.
pub open spec fn has_almost_even_states(chain: Seq<Header<u64>>) -> bool {
    forall|i: int| 0 <= i < chain.len() ==> #[trigger] chain[i].state_root == almost_even_states()[i]
}

/// Four blocks on top of `pow_genesis()` that the moderate Proof of Work engine accepts but
/// `EvenOnly` over it does not: their state roots are 2, 3, 4 and 6, each passes the Proof of Work
/// rule and links to the one before it by hash and height. `None` only when, on top of a sound
/// prefix of that chain, the engine finds no nonce for the next block.
pub fn almost_valid_but_not_all_even() -> (r: Option<Vec<Header<u64>>>)
    ensures
        r matches Some(v) ==> {
            let pow = PoW { threshold: u64::MAX / 100 };
            &&& v@.len() == 4
            &&& has_almost_even_states(v@)
            &&& forall|i: int| 0 <= i < 4 ==> #[trigger] hash_of(v@[i]) <= pow.threshold
            &&& forall|i: int| 0 <= i < 4 ==> (#[trigger] v@[i]).parent == hash_of(prior(pow_genesis(), v@, i))
            &&& forall|i: int| 0 <= i < 4 ==> (#[trigger] v@[i]).height == i + 1
            &&& chain_sound(pow, pow_genesis(), v@)
            &&& !chain_sound(EvenOnly { inner: pow }, pow_genesis(), v@)
        },
        r is None ==> exists|prefix: Seq<Header<u64>>|
            #![trigger chain_sound(PoW { threshold: u64::MAX / 100 }, pow_genesis(), prefix)]
            {
                let pow = PoW { threshold: u64::MAX / 100 };
                let last = prior(pow_genesis(), prefix, prefix.len() as int);
                &&& prefix.len() < 4
                &&& has_almost_even_states(prefix)
                &&& chain_sound(pow, pow_genesis(), prefix)
                &&& pow.sealed(last.consensus_digest, almost_even_partial(last, prefix.len() as int)) is None
            },
{
    let pow = moderate_difficulty_pow();
    let genesis: Header<u64> = Header { parent: 0, height: 0, extrinsics_root: 0, state_root: 0, consensus_digest: 0 };
    let states: Vec<u64> = vec![2, 3, 4, 6];
    let mut chain: Vec<Header<u64>> = Vec::new();
    let mut i: usize = 0;
    while i < 4
        invariant
            pow.threshold == u64::MAX / 100,
            genesis == pow_genesis(),
            states@ == almost_even_states(),
            chain@.len() == i,
            i <= 4,
            has_almost_even_states(chain@),
            forall|j: int| 0 <= j < i ==> #[trigger] chain@[j].height == j + 1,
            chain_sound(pow, genesis, chain@),
        decreases 4 - i,
    {
        let prev: Header<u64> = if i == 0 {
            genesis
        } else {
            chain[i - 1]
        };
        let partial: Header<()> = Header {
            parent: header_hash(&prev),
            height: (i + 1) as u64,
            extrinsics_root: i as u64,
            state_root: states[i],
            consensus_digest: (),
        };
        let sealed = pow.seal(&prev.consensus_digest, partial);
        match sealed {
            Some(h) => {
                let ghost old_chain = chain@;
                chain.push(h);
                proof {
                    assert forall|j: int| 0 <= j < i + 1 implies link_fault(
                        pow,
                        prior(genesis, chain@, j),
                        #[trigger] chain@[j],
                    ) is None by {
                        if j < i {
                            assert(chain@[j] == old_chain[j]);
                            assert(link_fault(pow, prior(genesis, old_chain, j), old_chain[j]) is None);
                        }
                    }
                    assert forall|j: int| 0 <= j < i + 1 implies #[trigger] chain@[j].state_root
                        == almost_even_states()[j] by {
                        if j < i {
                            assert(chain@[j] == old_chain[j]);
                        }
                    }
                }
            },
            None => {
                assert(partial == almost_even_partial(prev, i as int));
                assert(chain_sound(pow, pow_genesis(), chain@));
                return None;
            },
        }
        i = i + 1;
    }
    proof {
        let even = EvenOnly { inner: pow };
        lemma_even_only_first_odd(even, genesis, chain@);
        assert(chain@[1].state_root == 3);
        assert(!sound_up_to(even, genesis, chain@, 4));
        assert forall|j: int| 0 <= j < 4 implies #[trigger] hash_of(chain@[j]) <= pow.threshold
            && chain@[j].parent == hash_of(prior(genesis, chain@, j)) by {
            assert(link_fault(pow, prior(genesis, chain@, j), chain@[j]) is None);
        }
    }
    Some(chain)
}

} // verus!
