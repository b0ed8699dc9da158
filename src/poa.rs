//! Proof of Authority: a fixed set of authorities may sign blocks, under three rules of
//! increasing strictness.
use vstd::prelude::*;

use crate::header::{seal_with, with_digest, Consensus, ConsensusAuthority, Header, SlotDigest};

verus! {

/// The authority whose turn comes at position `k` of a round robin over `auths`.
pub open spec fn turn_of(auths: Seq<ConsensusAuthority>, k: u64) -> ConsensusAuthority
    recommends
        auths.len() > 0,
{
    auths[(k as int) % (auths.len() as int)]
}

/// Finds the authority at position `k` of a round robin over a non-empty list.
fn authority_at_turn(auths: &Vec<ConsensusAuthority>, k: u64) -> (r: ConsensusAuthority)
    requires
        auths@.len() > 0,
    ensures
        r == turn_of(auths@, k),
{
    let n = auths.len() as u64;
    let i = (k % n) as usize;
    auths[i]
}

/// Any listed authority may sign any block.
#[derive(Clone, Debug)]
pub struct SimplePoa {
    pub authorities: Vec<ConsensusAuthority>,
}

impl SimplePoa {
    /// An engine over the given authorities; `None` when there are none.
    pub fn new(authorities: Vec<ConsensusAuthority>) -> (r: Option<SimplePoa>)
        ensures
            authorities@.len() == 0 <==> r is None,
            r matches Some(e) ==> e.authorities@ == authorities@,
    {
        if authorities.len() == 0 {
            None
        } else {
            Some(SimplePoa { authorities })
        }
    }
}

impl Consensus for SimplePoa {
    type Digest = ConsensusAuthority;

    open spec fn accepts(&self, parent_digest: ConsensusAuthority, header: Header<ConsensusAuthority>) -> bool {
        self.authorities@.contains(header.consensus_digest)
    }

    open spec fn sealed(&self, parent_digest: ConsensusAuthority, partial: Header<()>) -> Option<Header<ConsensusAuthority>> {
        if self.authorities@.len() > 0 {
            Some(with_digest(partial, self.authorities@[0]))
        } else {
            None
        }
    }

    proof fn lemma_sealed_accepted(&self, parent_digest: ConsensusAuthority, partial: Header<()>) {
        if self.authorities@.len() > 0 {
            assert(self.authorities@.contains(self.authorities@[0]));
        }
    }

    /// Accepts iff the signer is one of the authorities.
    fn validate(&self, parent_digest: &ConsensusAuthority, header: &Header<ConsensusAuthority>) -> (r: bool) {
        let mut i: usize = 0;
        while i < self.authorities.len()
            invariant
                i <= self.authorities@.len(),
                forall|j: int| 0 <= j < i ==> self.authorities@[j] != header.consensus_digest,
            decreases self.authorities@.len() - i,
        {
            if self.authorities[i] == header.consensus_digest {
                return true;
            }
            i = i + 1;
        }
        false
    }

    /// Signs with the first authority.
    fn seal(&self, parent_digest: &ConsensusAuthority, partial_header: Header<()>) -> (r: Option<Header<ConsensusAuthority>>) {
        if self.authorities.len() == 0 {
            return None;
        }
        let signer = self.authorities[0];
        proof {
            assert(self.authorities@.contains(self.authorities@[0]));
        }
        Some(seal_with(partial_header, signer))
    }
}

/// Whether a header is acceptable to an any-authority engine depends on its signer alone: not
/// on its height, its other fields, or its parent's digest.
pub proof fn lemma_simple_poa_signer_only(
    engine: SimplePoa,
    pd1: ConsensusAuthority,
    h1: Header<ConsensusAuthority>,
    pd2: ConsensusAuthority,
    h2: Header<ConsensusAuthority>,
)
    requires
        h1.consensus_digest == h2.consensus_digest,
    ensures
        engine.accepts(pd1, h1) == engine.accepts(pd2, h2),
        engine.accepts(pd1, h1) <==> engine.authorities@.contains(h1.consensus_digest),
{
}

/// The authorities take turns by block height: the block at height `k` must be signed by
/// authority `k mod n`.
#[derive(Clone, Debug)]
pub struct PoaRoundRobinByHeight {
    pub authorities: Vec<ConsensusAuthority>,
}

impl PoaRoundRobinByHeight {
    /// An engine over the given authorities; `None` when there are none.
    pub fn new(authorities: Vec<ConsensusAuthority>) -> (r: Option<PoaRoundRobinByHeight>)
        ensures
            authorities@.len() == 0 <==> r is None,
            r matches Some(e) ==> e.authorities@ == authorities@,
    {
        if authorities.len() == 0 {
            None
        } else {
            Some(PoaRoundRobinByHeight { authorities })
        }
    }
}

impl Consensus for PoaRoundRobinByHeight {
    type Digest = ConsensusAuthority;

    open spec fn accepts(&self, parent_digest: ConsensusAuthority, header: Header<ConsensusAuthority>) -> bool {
        &&& self.authorities@.len() > 0
        &&& header.consensus_digest == turn_of(self.authorities@, header.height)
    }

    open spec fn sealed(&self, parent_digest: ConsensusAuthority, partial: Header<()>) -> Option<Header<ConsensusAuthority>> {
        if self.authorities@.len() > 0 {
            Some(with_digest(partial, turn_of(self.authorities@, partial.height)))
        } else {
            None
        }
    }

    proof fn lemma_sealed_accepted(&self, parent_digest: ConsensusAuthority, partial: Header<()>) {
    }

    /// Accepts iff the signer is the authority whose turn the header's height is.
    fn validate(&self, parent_digest: &ConsensusAuthority, header: &Header<ConsensusAuthority>) -> (r: bool) {
        if self.authorities.len() == 0 {
            return false;
        }
        header.consensus_digest == authority_at_turn(&self.authorities, header.height)
    }

    /// Signs with the authority whose turn the partial header's height is.
    fn seal(&self, parent_digest: &ConsensusAuthority, partial_header: Header<()>) -> (r: Option<Header<ConsensusAuthority>>) {
        if self.authorities.len() == 0 {
            return None;
        }
        let signer = authority_at_turn(&self.authorities, partial_header.height);
        Some(seal_with(partial_header, signer))
    }
}

/// Time is divided into slots and the authorities take turns by slot; slots may be skipped but
/// never reused or reordered.
#[derive(Clone, Debug)]
pub struct PoaRoundRobinBySlot {
    pub authorities: Vec<ConsensusAuthority>,
}

impl PoaRoundRobinBySlot {
    /// An engine over the given authorities; `None` when there are none.
    pub fn new(authorities: Vec<ConsensusAuthority>) -> (r: Option<PoaRoundRobinBySlot>)
        ensures
            authorities@.len() == 0 <==> r is None,
            r matches Some(e) ==> e.authorities@ == authorities@,
    {
        if authorities.len() == 0 {
            None
        } else {
            Some(PoaRoundRobinBySlot { authorities })
        }
    }
}

impl Consensus for PoaRoundRobinBySlot {
    type Digest = SlotDigest;

    open spec fn accepts(&self, parent_digest: SlotDigest, header: Header<SlotDigest>) -> bool {
        &&& self.authorities@.len() > 0
        &&& header.consensus_digest.signature == turn_of(self.authorities@, header.consensus_digest.slot)
        &&& header.consensus_digest.slot > parent_digest.slot
    }

    open spec fn sealed(&self, parent_digest: SlotDigest, partial: Header<()>) -> Option<Header<SlotDigest>> {
        if self.authorities@.len() > 0 && parent_digest.slot < u64::MAX {
            let slot = (parent_digest.slot + 1) as u64;
            Some(with_digest(partial, SlotDigest { slot, signature: turn_of(self.authorities@, slot) }))
        } else {
            None
        }
    }

    proof fn lemma_sealed_accepted(&self, parent_digest: SlotDigest, partial: Header<()>) {
    }

    /// Accepts iff the signer is the authority of the header's slot and that slot comes strictly
    /// after the parent's.
    fn validate(&self, parent_digest: &SlotDigest, header: &Header<SlotDigest>) -> (r: bool) {
        if self.authorities.len() == 0 {
            return false;
        }
        let d = header.consensus_digest;
        d.signature == authority_at_turn(&self.authorities, d.slot) && d.slot > parent_digest.slot
    }

    /// Signs in the slot right after the parent's, with that slot's authority.
    fn seal(&self, parent_digest: &SlotDigest, partial_header: Header<()>) -> (r: Option<Header<SlotDigest>>) {
        if self.authorities.len() == 0 || parent_digest.slot == u64::MAX {
            return None;
        }
        let slot = parent_digest.slot + 1;
        let signer = authority_at_turn(&self.authorities, slot);
        Some(seal_with(partial_header, SlotDigest { slot, signature: signer }))
    }
}

/// Slots are never reused or reordered: a header whose slot does not come after its parent's is
/// rejected, even when signed by the authority of that slot.
pub proof fn lemma_slot_must_advance(
    engine: PoaRoundRobinBySlot,
    parent_digest: SlotDigest,
    header: Header<SlotDigest>,
)
    requires
        header.consensus_digest.slot <= parent_digest.slot,
    ensures
        !engine.accepts(parent_digest, header),
{
}

} // verus!
