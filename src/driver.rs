//! Walks a candidate sequence of headers on top of a known parent, checking hash linkage,
//! heights and the engine's rule, and stops at the first header that fails.
use vstd::prelude::*;

use crate::header::{hash_of, header_hash, Consensus, Header};

verus! {

/// The first rule a header breaks.
#[derive(Clone, Copy, Debug, PartialEq, Eq, Structural)]
pub enum ChainFault {
    /// Its `parent` is not the hash of the header before it.
    ParentMismatch,
    /// Its height is not one more than the height of the header before it.
    HeightMismatch,
    /// The consensus engine rejects it.
    ConsensusRejected,
}

/// Where a chain failed, and why.
#[derive(Clone, Copy, Debug, PartialEq, Eq, Structural)]
pub struct ChainError {
    /// Position of the failing header in the checked sequence.
    pub index: usize,
    pub fault: ChainFault,
}

/// The header before position `i` of `chain`, which starts on top of `start`.
pub open spec fn prior<D>(start: Header<D>, chain: Seq<Header<D>>, i: int) -> Header<D> {
    if i == 0 {
        start
    } else {
        chain[i - 1]
    }
}

/// The first linkage rule that `h` breaks as the child of `prev`, whose hash is `prev_hash`.
pub open spec fn linkage_fault_spec<D>(prev_hash: u64, prev: Header<D>, h: Header<D>) -> Option<ChainFault> {
    if h.parent != prev_hash {
        Some(ChainFault::ParentMismatch)
    } else if h.height != prev.height + 1 {
        Some(ChainFault::HeightMismatch)
    } else {
        None
    }
}

/// The first rule that `h` breaks as the child of `prev`, if any.
pub open spec fn link_fault<E: Consensus>(engine: E, prev: Header<E::Digest>, h: Header<E::Digest>) -> Option<ChainFault> {
    match linkage_fault_spec(hash_of(prev), prev, h) {
        Some(f) => Some(f),
        None => if !engine.accepts(prev.consensus_digest, h) {
            Some(ChainFault::ConsensusRejected)
        } else {
            None
        },
    }
}

/// Finds the first linkage rule that `h` breaks as the child of `prev`, given the hash of `prev`.
pub fn linkage_fault<D>(prev_hash: u64, prev: &Header<D>, h: &Header<D>) -> (r: Option<ChainFault>)
    ensures
        r == linkage_fault_spec(prev_hash, *prev, *h),
{
    if h.parent != prev_hash {
        Some(ChainFault::ParentMismatch)
    } else if prev.height == u64::MAX || h.height != prev.height + 1 {
        Some(ChainFault::HeightMismatch)
    } else {
        None
    }
}

/// The headers of `chain` before position `n` are each a sound child of the one before them.
pub open spec fn sound_up_to<E: Consensus>(engine: E, start: Header<E::Digest>, chain: Seq<Header<E::Digest>>, n: int) -> bool {
    forall|i: int| 0 <= i < n ==> link_fault(engine, prior(start, chain, i), #[trigger] chain[i]) is None
}

/// Every header of `chain` is a sound child of the one before it.
pub open spec fn chain_sound<E: Consensus>(engine: E, start: Header<E::Digest>, chain: Seq<Header<E::Digest>>) -> bool {
    sound_up_to(engine, start, chain, chain.len() as int)
}

/// Checks `chain` on top of `start`: `Ok` when every header is sound, else the first failing
/// header and the first rule it breaks.
pub fn verify_chain<E: Consensus>(engine: &E, start: &Header<E::Digest>, chain: &[Header<E::Digest>]) -> (r: Result<(), ChainError>)
    ensures
        r is Ok <==> chain_sound(*engine, *start, chain@),
        r matches Err(e) ==> {
            &&& e.index < chain@.len()
            &&& sound_up_to(*engine, *start, chain@, e.index as int)
            &&& link_fault(*engine, prior(*start, chain@, e.index as int), chain@[e.index as int]) == Some(e.fault)
        },
{
    let mut i: usize = 0;
    while i < chain.len()
        invariant
            i <= chain@.len(),
            sound_up_to(*engine, *start, chain@, i as int),
        decreases chain@.len() - i,
    {
        let prev: &Header<E::Digest> = if i == 0 {
            start
        } else {
            &chain[i - 1]
        };
        let h = &chain[i];
        match linkage_fault(header_hash(prev), prev, h) {
            Some(fault) => {
                return Err(ChainError { index: i, fault });
            },
            None => {},
        }
        if !engine.validate(&prev.consensus_digest, h) {
            return Err(ChainError { index: i, fault: ChainFault::ConsensusRejected });
        }
        i = i + 1;
    }
    Ok(())
}

} // verus!
