//! A self-contained hash-linked chain of headers with a Proof of Work threshold, and a
//! contentious fork between two communities: one wants even states, the other odd ones.
use vstd::prelude::*;

use crate::hashing::{hash_words, words_hash};

verus! {

/// A header is acceptable only when its hash is below this threshold.
pub const THRESHOLD: u64 = u64::MAX;

/// The height of the contentious fork: above it, each side accepts only states of its own
/// parity.
pub const FORK_HEIGHT: u64 = 2;

/// A block header whose consensus digest is a Proof of Work nonce.
#[derive(Clone, Copy, Debug, PartialEq, Eq, Structural, Hash)]
pub struct Header {
    pub parent: u64,
    pub height: u64,
    pub extrinsic: u64,
    pub state: u64,
    pub consensus_digest: u64,
}

/// The words a header is hashed over, field by field.
pub open spec fn header_words(h: Header) -> Seq<u64> {
    seq![h.parent, h.height, h.extrinsic, h.state, h.consensus_digest]
}

/// The content hash of a header.
pub open spec fn hash_spec(h: Header) -> u64 {
    words_hash(header_words(h))
}

/// Computes the content hash of a header.
pub fn hash(h: &Header) -> (r: u64)
    ensures
        r == hash_spec(*h),
{
    let w: Vec<u64> = vec![h.parent, h.height, h.extrinsic, h.state, h.consensus_digest];
    proof {
        assert(w@ =~= header_words(*h));
    }
    hash_words(&w)
}

/// The genesis header: every field zero.
pub open spec fn genesis_spec() -> Header {
    Header { parent: 0, height: 0, extrinsic: 0, state: 0, consensus_digest: 0 }
}

/// `h` is a sound child of `prev`, given the hashes of both: it links to `prev_hash`, is one
/// higher, adds its extrinsic to the state, has a hash below the threshold and keeps the nonce.
pub open spec fn links_given(prev: Header, prev_hash: u64, h: Header, h_hash: u64) -> bool {
    &&& h.parent == prev_hash
    &&& h.height == prev.height + 1
    &&& h.state == prev.state + h.extrinsic
    &&& h_hash < THRESHOLD
    &&& h.consensus_digest == prev.consensus_digest
}

/// `h` is a sound child of `prev`.
pub open spec fn links(prev: Header, h: Header) -> bool {
    links_given(prev, hash_spec(prev), h, hash_spec(h))
}

/// Decides whether `h` is a sound child of `prev`, given the hashes of both headers.
pub fn link_holds(prev: &Header, prev_hash: u64, h: &Header, h_hash: u64) -> (r: bool)
    ensures
        r == links_given(*prev, prev_hash, *h, h_hash),
{
    h.parent == prev_hash && prev.height < u64::MAX && h.height == prev.height + 1
        && h.extrinsic <= u64::MAX - prev.state && h.state == prev.state + h.extrinsic
        && h_hash < THRESHOLD && h.consensus_digest == prev.consensus_digest
}

/// The header before position `i` of `chain`, which starts on top of `start`.
pub open spec fn prior(start: Header, chain: Seq<Header>, i: int) -> Header {
    if i == 0 {
        start
    } else {
        chain[i - 1]
    }
}

/// Every header of `chain` is a sound child of the one before it, starting from `start`.
pub open spec fn valid_sub_chain(start: Header, chain: Seq<Header>) -> bool {
    forall|i: int| 0 <= i < chain.len() ==> links(prior(start, chain, i), #[trigger] chain[i])
}

/// `h` is at or below `FORK_HEIGHT`, or its state has the given parity (0 for even, 1 for odd).
pub open spec fn fits_side(h: Header, parity: u64) -> bool {
    h.height > FORK_HEIGHT ==> h.state % 2 == parity
}

/// Every header of `chain` above `FORK_HEIGHT` has a state of the given parity.
pub open spec fn parity_after_fork(chain: Seq<Header>, parity: u64) -> bool {
    forall|i: int| 0 <= i < chain.len() ==> #[trigger] fits_side(chain[i], parity)
}

/// Decides whether every header of `chain` above `FORK_HEIGHT` has a state of the given parity.
fn all_fit_side(chain: &[Header], parity: u64) -> (r: bool)
    ensures
        r == parity_after_fork(chain@, parity),
{
    let mut i: usize = 0;
    while i < chain.len()
        invariant
            i <= chain@.len(),
            forall|j: int| 0 <= j < i ==> #[trigger] fits_side(chain@[j], parity),
        decreases chain@.len() - i,
    {
        let h = &chain[i];
        if h.height > FORK_HEIGHT && h.state % 2 != parity {
            assert(!fits_side(chain@[i as int], parity));
            return false;
        }
        i = i + 1;
    }
    true
}

impl Header {
    /// The child of `self` that carries `extrinsic`.
    pub open spec fn child_of(self, extrinsic: u64) -> Header {
        Header {
            parent: hash_spec(self),
            height: (self.height + 1) as u64,
            extrinsic,
            state: (self.state + extrinsic) as u64,
            consensus_digest: 0,
        }
    }

    /// Returns the genesis header.
    pub fn genesis() -> (r: Header)
        ensures
            r == genesis_spec(),
    {
        Header { parent: 0, height: 0, extrinsic: 0, state: 0, consensus_digest: 0 }
    }

    /// Returns the child of this header that carries `extrinsic`.
    pub fn child(&self, extrinsic: u64) -> (r: Header)
        requires
            self.height < u64::MAX,
            self.state + extrinsic <= u64::MAX,
        ensures
            r == self.child_of(extrinsic),
    {
        Header {
            parent: hash(self),
            height: self.height + 1,
            extrinsic,
            state: self.state + extrinsic,
            consensus_digest: 0,
        }
    }

    /// Checks that `chain` extends this header: each header links to the hash of the one before,
    /// is one higher, adds its extrinsic to the state, has a hash below the threshold and keeps
    /// the nonce.
    pub fn verify_sub_chain(&self, chain: &[Header]) -> (r: bool)
        ensures
            r == valid_sub_chain(*self, chain@),
    {
        let mut i: usize = 0;
        while i < chain.len()
            invariant
                i <= chain@.len(),
                forall|j: int| 0 <= j < i ==> links(prior(*self, chain@, j), #[trigger] chain@[j]),
            decreases chain@.len() - i,
        {
            let prev: &Header = if i == 0 {
                self
            } else {
                &chain[i - 1]
            };
            let h = &chain[i];
            if !link_holds(prev, hash(prev), h, hash(h)) {
                return false;
            }
            i = i + 1;
        }
        true
    }

    /// The even side of the fork: `chain` must extend this header, and every header above
    /// `FORK_HEIGHT` must have an even state.
    pub fn verify_sub_chain_even(&self, chain: &[Header]) -> (r: bool)
        ensures
            r == (valid_sub_chain(*self, chain@) && parity_after_fork(chain@, 0)),
    {
        self.verify_sub_chain(chain) && all_fit_side(chain, 0)
    }

    /// The odd side of the fork: `chain` must extend this header, and every header above
    /// `FORK_HEIGHT` must have an odd state.
    pub fn verify_sub_chain_odd(&self, chain: &[Header]) -> (r: bool)
        ensures
            r == (valid_sub_chain(*self, chain@) && parity_after_fork(chain@, 1)),
    {
        self.verify_sub_chain(chain) && all_fit_side(chain, 1)
    }
}

/// The extrinsic the odd side adds to a header with the given state to reach an odd state.
pub open spec fn odd_step(state: u64) -> u64 {
    if state % 2 == 0 {
        1
    } else {
        2
    }
}

/// The blocks of a contentious fork on top of genesis: the block after genesis in the common
/// prefix, followed by one side's suffix.
pub open spec fn fork_side(r: (Vec<Header>, Vec<Header>, Vec<Header>), suffix: Seq<Header>) -> Seq<Header> {
    r.0@.skip(1) + suffix
}

/// Builds two chains with a common prefix: the prefix (genesis and one empty block), an even
/// suffix of three blocks adding 2 each, and an odd suffix of three blocks that keep the state
/// odd. On top of genesis, the even side meets the even rule and breaks the odd one, the odd side
/// the reverse, and both are sound chains wherever their hashes are below the threshold.
pub fn build_contentious_forked_chain() -> (r: (Vec<Header>, Vec<Header>, Vec<Header>))
    ensures
        r.0@.len() == 2,
        r.0@[0] == genesis_spec(),
        r.0@[1] == r.0@[0].child_of(0),
        r.1@.len() == 3,
        r.1@[0] == r.0@[1].child_of(2),
        r.1@[1] == r.1@[0].child_of(2),
        r.1@[2] == r.1@[1].child_of(2),
        r.2@.len() == 3,
        r.2@[0] == r.0@[1].child_of(odd_step(r.0@[1].state)),
        r.2@[1] == r.2@[0].child_of(odd_step(r.2@[0].state)),
        r.2@[2] == r.2@[1].child_of(odd_step(r.2@[1].state)),
        parity_after_fork(fork_side(r, r.1@), 0),
        !parity_after_fork(fork_side(r, r.1@), 1),
        parity_after_fork(fork_side(r, r.2@), 1),
        !parity_after_fork(fork_side(r, r.2@), 0),
        (forall|i: int| 0 <= i < 4 ==> hash_spec(#[trigger] fork_side(r, r.1@)[i]) < THRESHOLD)
            ==> valid_sub_chain(r.0@[0], fork_side(r, r.1@)),
        (forall|i: int| 0 <= i < 4 ==> hash_spec(#[trigger] fork_side(r, r.2@)[i]) < THRESHOLD)
            ==> valid_sub_chain(r.0@[0], fork_side(r, r.2@)),
{
    let g = Header::genesis();
    let b1 = g.child(0);
    let common_chain = vec![g, b1];

    let e1 = b1.child(2);
    let e2 = e1.child(2);
    let e3 = e2.child(2);
    let even_chain = vec![e1, e2, e3];

    let mut odd_chain: Vec<Header> = Vec::new();
    let mut last = b1;
    let mut k: usize = 0;
    while k < 3
        invariant
            k <= 3,
            odd_chain@.len() == k,
            last.height == 1 + k,
            last.state <= 1 + 2 * k,
            k == 0 ==> last == b1,
            k > 0 ==> last == odd_chain@[k - 1],
            k > 0 ==> odd_chain@[0] == b1.child_of(odd_step(b1.state)),
            forall|j: int|
                0 < j < k ==> #[trigger] odd_chain@[j] == odd_chain@[j - 1].child_of(
                    odd_step(odd_chain@[j - 1].state),
                ),
        decreases 3 - k,
    {
        let step: u64 = if last.state % 2 == 0 {
            1
        } else {
            2
        };
        let next = last.child(step);
        odd_chain.push(next);
        last = next;
        k = k + 1;
    }
    proof {
        let r = (common_chain, even_chain, odd_chain);
        let ev = fork_side(r, even_chain@);
        let od = fork_side(r, odd_chain@);
        assert(ev =~= seq![b1, e1, e2, e3]);
        assert(od =~= seq![b1, odd_chain@[0], odd_chain@[1], odd_chain@[2]]);
        assert(odd_chain@[0].state == 1 && odd_chain@[1].state == 3 && odd_chain@[2].state == 5);
        assert(!fits_side(ev[2], 1));
        assert(!fits_side(od[2], 0));
        assert forall|i: int| 0 <= i < 4 implies #[trigger] fits_side(ev[i], 0) && fits_side(od[i], 1) by {}
        if forall|i: int| 0 <= i < 4 ==> hash_spec(#[trigger] ev[i]) < THRESHOLD {
            assert forall|i: int| 0 <= i < 4 implies links(prior(g, ev, i), #[trigger] ev[i]) by {
                assert(hash_spec(ev[i]) < THRESHOLD);
            }
        }
        if forall|i: int| 0 <= i < 4 ==> hash_spec(#[trigger] od[i]) < THRESHOLD {
            assert forall|i: int| 0 <= i < 4 implies links(prior(g, od, i), #[trigger] od[i]) by {
                assert(hash_spec(od[i]) < THRESHOLD);
            }
        }
    }
    (common_chain, even_chain, odd_chain)
}

} // verus!
