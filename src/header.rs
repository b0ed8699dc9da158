//! Headers generic over a consensus digest, the digest types, and the engine contract.
use vstd::prelude::*;

use crate::hashing::{hash_words, words_hash};

verus! {

/// A value that can be laid out as 64-bit words, so that it takes part in a header's hash.
pub trait Encode: Sized {
    spec fn words(self) -> Seq<u64>;

    fn encode(&self) -> (r: Vec<u64>)
        ensures
            r@ == self.words(),
    ;
}

impl Encode for () {
    open spec fn words(self) -> Seq<u64> {
        Seq::empty()
    }

    fn encode(&self) -> (r: Vec<u64>) {
        Vec::new()
    }
}

impl Encode for u64 {
    open spec fn words(self) -> Seq<u64> {
        seq![self]
    }

    fn encode(&self) -> (r: Vec<u64>) {
        vec![*self]
    }
}

/// An opaque authority token: two authorities are the same iff their ids are equal.
#[derive(Clone, Copy, Debug, PartialEq, Eq, Structural, Hash)]
pub struct ConsensusAuthority {
    pub id: u64,
}

impl Encode for ConsensusAuthority {
    open spec fn words(self) -> Seq<u64> {
        seq![self.id]
    }

    fn encode(&self) -> (r: Vec<u64>) {
        vec![self.id]
    }
}

/// Digest of slot-based authority rounds: the slot a block was authored in, and its signer.
#[derive(Clone, Copy, Debug, PartialEq, Eq, Structural, Hash)]
pub struct SlotDigest {
    pub slot: u64,
    pub signature: ConsensusAuthority,
}

impl Encode for SlotDigest {
    open spec fn words(self) -> Seq<u64> {
        seq![self.slot, self.signature.id]
    }

    fn encode(&self) -> (r: Vec<u64>) {
        vec![self.slot, self.signature.id]
    }
}

/// One block header. `consensus_digest` carries the engine-specific seal.
#[derive(Clone, Copy, Debug, PartialEq, Eq, Hash)]
pub struct Header<D> {
    pub parent: u64,
    pub height: u64,
    pub extrinsics_root: u64,
    pub state_root: u64,
    pub consensus_digest: D,
}

/// The words a header is hashed over: its four numeric fields, then its digest.
pub open spec fn header_words<D: Encode>(h: Header<D>) -> Seq<u64> {
    seq![h.parent, h.height, h.extrinsics_root, h.state_root] + h.consensus_digest.words()
}

/// The content hash of a header.
pub open spec fn hash_of<D: Encode>(h: Header<D>) -> u64 {
    words_hash(header_words(h))
}

/// The header `partial` completed with the digest `d`.
pub open spec fn with_digest<D>(partial: Header<()>, d: D) -> Header<D> {
    Header {
        parent: partial.parent,
        height: partial.height,
        extrinsics_root: partial.extrinsics_root,
        state_root: partial.state_root,
        consensus_digest: d,
    }
}

/// `h` keeps every field of `partial` and adds a digest.
pub open spec fn completes<D>(h: Header<D>, partial: Header<()>) -> bool {
    h == with_digest(partial, h.consensus_digest)
}

/// Computes the content hash of a header.
pub fn header_hash<D: Encode>(h: &Header<D>) -> (r: u64)
    ensures
        r == hash_of(*h),
{
    let mut w: Vec<u64> = vec![h.parent, h.height, h.extrinsics_root, h.state_root];
    let mut d = h.consensus_digest.encode();
    w.append(&mut d);
    proof {
        assert(w@ =~= header_words(*h));
    }
    hash_words(&w)
}

/// Completes a partial header with a digest.
pub fn seal_with<D>(partial: Header<()>, d: D) -> (r: Header<D>)
    ensures
        r == with_digest(partial, d),
{
    Header {
        parent: partial.parent,
        height: partial.height,
        extrinsics_root: partial.extrinsics_root,
        state_root: partial.state_root,
        consensus_digest: d,
    }
}

/// A consensus engine: a rule deciding which sealed headers are acceptable, and a way to
/// author headers that meet it.
pub trait Consensus {
    type Digest: Encode;

    /// The engine's rule: whether `header`, whose parent carries `parent_digest`, is acceptable.
    spec fn accepts(&self, parent_digest: Self::Digest, header: Header<Self::Digest>) -> bool;

    /// What sealing `partial` on top of a parent carrying `parent_digest` yields.
    spec fn sealed(&self, parent_digest: Self::Digest, partial: Header<()>) -> Option<
        Header<Self::Digest>,
    >;

    /// Authoring and checking agree: whatever the engine seals, it accepts, and the sealed
    /// header keeps every field of the partial header.
    proof fn lemma_sealed_accepted(&self, parent_digest: Self::Digest, partial: Header<()>)
        ensures
            self.sealed(parent_digest, partial) matches Some(h) ==> {
                &&& self.accepts(parent_digest, h)
                &&& completes(h, partial)
            },
    ;

    fn validate(&self, parent_digest: &Self::Digest, header: &Header<Self::Digest>) -> (r: bool)
        ensures
            r == self.accepts(*parent_digest, *header),
    ;

    fn seal(&self, parent_digest: &Self::Digest, partial_header: Header<()>) -> (r: Option<
        Header<Self::Digest>,
    >)
        ensures
            r == self.sealed(*parent_digest, partial_header),
            r matches Some(h) ==> self.accepts(*parent_digest, h) && completes(h, partial_header),
    ;
}

/// Whatever an engine seals, it accepts.
pub proof fn lemma_seal_then_validate<E: Consensus>(
    engine: &E,
    parent_digest: E::Digest,
    partial: Header<()>,
)
    ensures
        engine.sealed(parent_digest, partial) matches Some(h) ==> engine.accepts(parent_digest, h)
            && completes(h, partial),
{
    engine.lemma_sealed_accepted(parent_digest, partial);
}

} // verus!
