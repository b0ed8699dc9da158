//! Proof of Work: a header is acceptable when its content hash is at most a threshold.
use vstd::prelude::*;

use crate::header::{
    completes, hash_of, header_hash, seal_with, with_digest, Consensus, Header,
};

verus! {

/// A Proof of Work engine. A lower threshold makes sealing harder.
#[derive(Clone, Copy, Debug, PartialEq, Eq)]
pub struct PoW {
    pub threshold: u64,
}

/// The smallest nonce, not below `n`, that seals `partial` under `threshold`.
pub open spec fn first_nonce_from(partial: Header<()>, threshold: u64, n: u64) -> Option<u64>
    decreases u64::MAX - n,
{
    if hash_of(with_digest(partial, n)) <= threshold {
        Some(n)
    } else if n == u64::MAX {
        None
    } else {
        first_nonce_from(partial, threshold, (n + 1) as u64)
    }
}

/// The nonce found by `first_nonce_from` meets the threshold, and every nonce between the start
/// and it does not.
pub proof fn lemma_first_nonce(partial: Header<()>, threshold: u64, n: u64)
    ensures
        match first_nonce_from(partial, threshold, n) {
            Some(m) => n <= m && hash_of(with_digest(partial, m)) <= threshold && forall|k: u64|
                n <= k < m ==> #[trigger] hash_of(with_digest(partial, k)) > threshold,
            None => forall|k: u64| n <= k ==> #[trigger] hash_of(with_digest(partial, k)) > threshold,
        },
    decreases u64::MAX - n,
{
    if hash_of(with_digest(partial, n)) <= threshold {
    } else if n == u64::MAX {
    } else {
        lemma_first_nonce(partial, threshold, (n + 1) as u64);
    }
}

impl PoW {
    pub fn new(threshold: u64) -> (r: PoW)
        ensures
            r.threshold == threshold,
    {
        PoW { threshold }
    }
}

impl Consensus for PoW {
    type Digest = u64;

    open spec fn accepts(&self, parent_digest: u64, header: Header<u64>) -> bool {
        hash_of(header) <= self.threshold
    }

    open spec fn sealed(&self, parent_digest: u64, partial: Header<()>) -> Option<Header<u64>> {
        match first_nonce_from(partial, self.threshold, 1) {
            Some(n) => Some(with_digest(partial, n)),
            None => None,
        }
    }

    proof fn lemma_sealed_accepted(&self, parent_digest: u64, partial: Header<()>) {
        lemma_first_nonce(partial, self.threshold, 1);
    }

    /// Accepts iff the header's hash is at most the threshold; the parent digest plays no part.
    fn validate(&self, parent_digest: &u64, header: &Header<u64>) -> (r: bool) {
        header_hash(header) <= self.threshold
    }

    /// Tries nonces 1, 2, 3, ... in turn and returns the first header whose hash meets the
    /// threshold; `None` once the nonce space is exhausted.
    fn seal(&self, parent_digest: &u64, partial_header: Header<()>) -> (r: Option<Header<u64>>) {
        let mut nonce: u64 = 1;
        loop
            invariant
                1 <= nonce,
                first_nonce_from(partial_header, self.threshold, 1) == first_nonce_from(
                    partial_header,
                    self.threshold,
                    nonce,
                ),
            decreases u64::MAX - nonce,
        {
            let candidate = seal_with(partial_header, nonce);
            if header_hash(&candidate) <= self.threshold {
                proof {
                    lemma_first_nonce(partial_header, self.threshold, 1);
                }
                return Some(candidate);
            }
            if nonce == u64::MAX {
                return None;
            }
            nonce = nonce + 1;
        }
    }
}

/// A Proof of Work engine under which roughly one nonce in a hundred seals a header.
pub fn moderate_difficulty_pow() -> (r: PoW)
    ensures
        r.threshold == u64::MAX / 100,
{
    PoW { threshold: u64::MAX / 100 }
}

/// Sealing is a deterministic search: the nonce found is the smallest positive nonce that meets
/// the threshold, so every smaller positive nonce fails it, and sealing fails only when no nonce
/// meets it.
pub proof fn lemma_pow_seal_first_nonce(engine: PoW, parent_digest: u64, partial: Header<()>)
    ensures
        match engine.sealed(parent_digest, partial) {
            Some(h) => {
                &&& completes(h, partial)
                &&& 1 <= h.consensus_digest
                &&& hash_of(h) <= engine.threshold
                &&& forall|k: u64|
                    1 <= k < h.consensus_digest ==> #[trigger] hash_of(with_digest(partial, k))
                        > engine.threshold
            },
            None => forall|k: u64|
                1 <= k ==> #[trigger] hash_of(with_digest(partial, k)) > engine.threshold,
        },
{
    lemma_first_nonce(partial, engine.threshold, 1);
}

} // verus!
