//! Forks: engines whose rule changes at a fixed block height, with the same digest type on both
//! sides or with a digest type that changes at the fork.
use vstd::prelude::*;

use crate::header::{hash_of, Consensus, ConsensusAuthority, Encode, Header};
use crate::poa::SimplePoa;
use crate::pow::PoW;

verus! {

/// Delegates to `before` below `fork_height` and to `after` from it on. Which side applies is
/// decided by the header's own height on every call; the engine keeps no phase of its own.
#[derive(Clone, Debug)]
pub struct Forked<Before, After> {
    /// The first height at which `after` applies.
    pub fork_height: u64,
    pub before: Before,
    pub after: After,
}

impl<B: Consensus, A: Consensus<Digest = B::Digest>> Forked<B, A> {
    pub fn new(fork_height: u64, before: B, after: A) -> (r: Forked<B, A>)
        ensures
            r.fork_height == fork_height,
            r.before == before,
            r.after == after,
    {
        Forked { fork_height, before, after }
    }
}

impl<B: Consensus, A: Consensus<Digest = B::Digest>> Consensus for Forked<B, A> {
    type Digest = B::Digest;

    open spec fn accepts(&self, parent_digest: B::Digest, header: Header<B::Digest>) -> bool {
        if header.height < self.fork_height {
            self.before.accepts(parent_digest, header)
        } else {
            self.after.accepts(parent_digest, header)
        }
    }

    open spec fn sealed(&self, parent_digest: B::Digest, partial: Header<()>) -> Option<Header<B::Digest>> {
        if partial.height < self.fork_height {
            self.before.sealed(parent_digest, partial)
        } else {
            self.after.sealed(parent_digest, partial)
        }
    }

    proof fn lemma_sealed_accepted(&self, parent_digest: B::Digest, partial: Header<()>) {
        self.before.lemma_sealed_accepted(parent_digest, partial);
        self.after.lemma_sealed_accepted(parent_digest, partial);
    }

    fn validate(&self, parent_digest: &B::Digest, header: &Header<B::Digest>) -> (r: bool) {
        if header.height < self.fork_height {
            self.before.validate(parent_digest, header)
        } else {
            self.after.validate(parent_digest, header)
        }
    }

    fn seal(&self, parent_digest: &B::Digest, partial_header: Header<()>) -> (r: Option<Header<B::Digest>>) {
        if partial_header.height < self.fork_height {
            self.before.seal(parent_digest, partial_header)
        } else {
            self.after.seal(parent_digest, partial_header)
        }
    }
}

/// An any-authority engine whose authority set changes at `fork_height`; `None` when either set
/// is empty.
pub fn change_authorities(
    fork_height: u64,
    initial_authorities: Vec<ConsensusAuthority>,
    final_authorities: Vec<ConsensusAuthority>,
) -> (r: Option<Forked<SimplePoa, SimplePoa>>)
    ensures
        r is Some <==> initial_authorities@.len() > 0 && final_authorities@.len() > 0,
        r matches Some(e) ==> {
            &&& e.fork_height == fork_height
            &&& e.before.authorities@ == initial_authorities@
            &&& e.after.authorities@ == final_authorities@
        },
{
    let before = SimplePoa::new(initial_authorities);
    let after = SimplePoa::new(final_authorities);
    match (before, after) {
        (Some(b), Some(a)) => Some(Forked { fork_height, before: b, after: a }),
        _ => None,
    }
}

/// A Proof of Work engine whose threshold changes from `initial_difficulty` to
/// `final_difficulty` at `fork_height`.
pub fn change_difficulty(fork_height: u64, initial_difficulty: u64, final_difficulty: u64) -> (r:
    Forked<PoW, PoW>)
    ensures
        r.fork_height == fork_height,
        r.before.threshold == initial_difficulty,
        r.after.threshold == final_difficulty,
{
    Forked { fork_height, before: PoW::new(initial_difficulty), after: PoW::new(final_difficulty) }
}

/// Keeps an inner engine's rule throughout, and from `fork_height` on also asks for an even state
/// root.
#[derive(Clone, Debug)]
pub struct EvenAfterHeight<Inner> {
    pub inner: Inner,
    /// The first height at which the state root must be even.
    pub fork_height: u64,
}

impl<Inner: Consensus> Consensus for EvenAfterHeight<Inner> {
    type Digest = Inner::Digest;

    open spec fn accepts(&self, parent_digest: Inner::Digest, header: Header<Inner::Digest>) -> bool {
        &&& self.inner.accepts(parent_digest, header)
        &&& header.height >= self.fork_height ==> header.state_root % 2 == 0
    }

    open spec fn sealed(&self, parent_digest: Inner::Digest, partial: Header<()>) -> Option<Header<Inner::Digest>> {
        if partial.height >= self.fork_height && partial.state_root % 2 != 0 {
            None
        } else {
            self.inner.sealed(parent_digest, partial)
        }
    }

    proof fn lemma_sealed_accepted(&self, parent_digest: Inner::Digest, partial: Header<()>) {
        self.inner.lemma_sealed_accepted(parent_digest, partial);
    }

    fn validate(&self, parent_digest: &Inner::Digest, header: &Header<Inner::Digest>) -> (r: bool) {
        if header.height >= self.fork_height && header.state_root % 2 != 0 {
            return false;
        }
        self.inner.validate(parent_digest, header)
    }

    /// Seals with the inner engine; `None` from the fork on when the state root is odd.
    fn seal(&self, parent_digest: &Inner::Digest, partial_header: Header<()>) -> (r: Option<Header<Inner::Digest>>) {
        if partial_header.height >= self.fork_height && partial_header.state_root % 2 != 0 {
            return None;
        }
        self.inner.seal(parent_digest, partial_header)
    }
}

/// An engine that follows `inner` and, from `fork_height` on, also wants even state roots.
pub fn even_after_given_height<Inner: Consensus>(inner: Inner, fork_height: u64) -> (r: EvenAfterHeight<Inner>)
    ensures
        r.inner == inner,
        r.fork_height == fork_height,
{
    EvenAfterHeight { inner, fork_height }
}

/// The digest of a chain that moves from Proof of Work to Proof of Authority: a nonce before the
/// fork, an authority after it.
#[derive(Clone, Copy, Debug, PartialEq, Eq, Structural, Hash)]
pub enum PowOrPoaDigest {
    Pow(u64),
    Poa(ConsensusAuthority),
}

impl Encode for PowOrPoaDigest {
    open spec fn words(self) -> Seq<u64> {
        match self {
            PowOrPoaDigest::Pow(n) => seq![0, n],
            PowOrPoaDigest::Poa(a) => seq![1, a.id],
        }
    }

    fn encode(&self) -> (r: Vec<u64>) {
        match self {
            PowOrPoaDigest::Pow(n) => vec![0, *n],
            PowOrPoaDigest::Poa(a) => vec![1, a.id],
        }
    }
}

impl From<u64> for PowOrPoaDigest {
    fn from(d: u64) -> (r: PowOrPoaDigest) {
        PowOrPoaDigest::Pow(d)
    }
}

impl vstd::std_specs::convert::FromSpecImpl<u64> for PowOrPoaDigest {
    open spec fn obeys_from_spec() -> bool {
        true
    }

    open spec fn from_spec(v: u64) -> PowOrPoaDigest {
        PowOrPoaDigest::Pow(v)
    }
}

impl From<ConsensusAuthority> for PowOrPoaDigest {
    fn from(d: ConsensusAuthority) -> (r: PowOrPoaDigest) {
        PowOrPoaDigest::Poa(d)
    }
}

impl vstd::std_specs::convert::FromSpecImpl<ConsensusAuthority> for PowOrPoaDigest {
    open spec fn obeys_from_spec() -> bool {
        true
    }

    open spec fn from_spec(v: ConsensusAuthority) -> PowOrPoaDigest {
        PowOrPoaDigest::Poa(v)
    }
}

/// `h` with its digest replaced by `d`.
pub open spec fn retag<D, E>(h: Header<D>, d: E) -> Header<E> {
    Header {
        parent: h.parent,
        height: h.height,
        extrinsics_root: h.extrinsics_root,
        state_root: h.state_root,
        consensus_digest: d,
    }
}

fn retag_header<D, E>(h: &Header<D>, d: E) -> (r: Header<E>)
    ensures
        r == retag(*h, d),
{
    Header {
        parent: h.parent,
        height: h.height,
        extrinsics_root: h.extrinsics_root,
        state_root: h.state_root,
        consensus_digest: d,
    }
}

/// Runs a nonce-digest engine on `PowOrPoaDigest` headers: it accepts only `Pow` digests and
/// seals `Pow` digests. A parent digest from the other side is handed on as `foreign_parent`.
#[derive(Clone, Debug)]
pub struct PowArm<E> {
    pub engine: E,
    pub foreign_parent: u64,
}

impl<E: Consensus<Digest = u64>> PowArm<E> {
    /// The parent digest as the inner engine sees it.
    pub open spec fn project_parent(&self, d: PowOrPoaDigest) -> u64 {
        match d {
            PowOrPoaDigest::Pow(n) => n,
            PowOrPoaDigest::Poa(_) => self.foreign_parent,
        }
    }

    fn exec_project_parent(&self, d: &PowOrPoaDigest) -> (r: u64)
        ensures
            r == self.project_parent(*d),
    {
        match d {
            PowOrPoaDigest::Pow(n) => *n,
            PowOrPoaDigest::Poa(_) => self.foreign_parent,
        }
    }
}

impl<E: Consensus<Digest = u64>> Consensus for PowArm<E> {
    type Digest = PowOrPoaDigest;

    open spec fn accepts(&self, parent_digest: PowOrPoaDigest, header: Header<PowOrPoaDigest>) -> bool {
        match header.consensus_digest {
            PowOrPoaDigest::Pow(n) => self.engine.accepts(self.project_parent(parent_digest), retag(header, n)),
            PowOrPoaDigest::Poa(_) => false,
        }
    }

    open spec fn sealed(&self, parent_digest: PowOrPoaDigest, partial: Header<()>) -> Option<Header<PowOrPoaDigest>> {
        match self.engine.sealed(self.project_parent(parent_digest), partial) {
            Some(h) => Some(retag(h, PowOrPoaDigest::Pow(h.consensus_digest))),
            None => None,
        }
    }

    proof fn lemma_sealed_accepted(&self, parent_digest: PowOrPoaDigest, partial: Header<()>) {
        self.engine.lemma_sealed_accepted(self.project_parent(parent_digest), partial);
        if let Some(h) = self.engine.sealed(self.project_parent(parent_digest), partial) {
            assert(retag(retag(h, PowOrPoaDigest::Pow(h.consensus_digest)), h.consensus_digest) == h);
        }
    }

    fn validate(&self, parent_digest: &PowOrPoaDigest, header: &Header<PowOrPoaDigest>) -> (r: bool) {
        match header.consensus_digest {
            PowOrPoaDigest::Pow(n) => {
                let pd = self.exec_project_parent(parent_digest);
                let native = retag_header(header, n);
                self.engine.validate(&pd, &native)
            },
            PowOrPoaDigest::Poa(_) => false,
        }
    }

    fn seal(&self, parent_digest: &PowOrPoaDigest, partial_header: Header<()>) -> (r: Option<Header<PowOrPoaDigest>>) {
        let pd = self.exec_project_parent(parent_digest);
        match self.engine.seal(&pd, partial_header) {
            Some(h) => {
                proof {
                    assert(retag(retag(h, PowOrPoaDigest::Pow(h.consensus_digest)), h.consensus_digest) == h);
                }
                Some(retag_header(&h, PowOrPoaDigest::Pow(h.consensus_digest)))
            },
            None => None,
        }
    }
}

/// Runs an authority-digest engine on `PowOrPoaDigest` headers: it accepts only `Poa` digests and
/// seals `Poa` digests. A parent digest from the other side is handed on as `foreign_parent`.
#[derive(Clone, Debug)]
pub struct PoaArm<E> {
    pub engine: E,
    pub foreign_parent: ConsensusAuthority,
}

impl<E: Consensus<Digest = ConsensusAuthority>> PoaArm<E> {
    /// The parent digest as the inner engine sees it.
    pub open spec fn project_parent(&self, d: PowOrPoaDigest) -> ConsensusAuthority {
        match d {
            PowOrPoaDigest::Poa(a) => a,
            PowOrPoaDigest::Pow(_) => self.foreign_parent,
        }
    }

    fn exec_project_parent(&self, d: &PowOrPoaDigest) -> (r: ConsensusAuthority)
        ensures
            r == self.project_parent(*d),
    {
        match d {
            PowOrPoaDigest::Poa(a) => *a,
            PowOrPoaDigest::Pow(_) => self.foreign_parent,
        }
    }
}

impl<E: Consensus<Digest = ConsensusAuthority>> Consensus for PoaArm<E> {
    type Digest = PowOrPoaDigest;

    open spec fn accepts(&self, parent_digest: PowOrPoaDigest, header: Header<PowOrPoaDigest>) -> bool {
        match header.consensus_digest {
            PowOrPoaDigest::Poa(a) => self.engine.accepts(self.project_parent(parent_digest), retag(header, a)),
            PowOrPoaDigest::Pow(_) => false,
        }
    }

    open spec fn sealed(&self, parent_digest: PowOrPoaDigest, partial: Header<()>) -> Option<Header<PowOrPoaDigest>> {
        match self.engine.sealed(self.project_parent(parent_digest), partial) {
            Some(h) => Some(retag(h, PowOrPoaDigest::Poa(h.consensus_digest))),
            None => None,
        }
    }

    proof fn lemma_sealed_accepted(&self, parent_digest: PowOrPoaDigest, partial: Header<()>) {
        self.engine.lemma_sealed_accepted(self.project_parent(parent_digest), partial);
        if let Some(h) = self.engine.sealed(self.project_parent(parent_digest), partial) {
            assert(retag(retag(h, PowOrPoaDigest::Poa(h.consensus_digest)), h.consensus_digest) == h);
        }
    }

    fn validate(&self, parent_digest: &PowOrPoaDigest, header: &Header<PowOrPoaDigest>) -> (r: bool) {
        match header.consensus_digest {
            PowOrPoaDigest::Poa(a) => {
                let pd = self.exec_project_parent(parent_digest);
                let native = retag_header(header, a);
                self.engine.validate(&pd, &native)
            },
            PowOrPoaDigest::Pow(_) => false,
        }
    }

    fn seal(&self, parent_digest: &PowOrPoaDigest, partial_header: Header<()>) -> (r: Option<Header<PowOrPoaDigest>>) {
        let pd = self.exec_project_parent(parent_digest);
        match self.engine.seal(&pd, partial_header) {
            Some(h) => {
                proof {
                    assert(retag(retag(h, PowOrPoaDigest::Poa(h.consensus_digest)), h.consensus_digest) == h);
                }
                Some(retag_header(&h, PowOrPoaDigest::Poa(h.consensus_digest)))
            },
            None => None,
        }
    }
}

/// The engine of a chain that moves from Proof of Work to Proof of Authority.
pub type PowToPoa = Forked<PowArm<PoW>, PoaArm<SimplePoa>>;

/// Proof of Work under `difficulty` below `fork_height`, any-authority Proof of Authority over
/// `authorities` from it on; `None` when there are no authorities.
pub fn pow_to_poa(fork_height: u64, difficulty: u64, authorities: Vec<ConsensusAuthority>) -> (r:
    Option<PowToPoa>)
    ensures
        r is Some <==> authorities@.len() > 0,
        r matches Some(e) ==> {
            &&& e.fork_height == fork_height
            &&& e.before.engine.threshold == difficulty
            &&& e.after.engine.authorities@ == authorities@
        },
{
    if authorities.len() == 0 {
        return None;
    }
    let first = authorities[0];
    let poa = SimplePoa { authorities };
    Some(Forked {
        fork_height,
        before: PowArm { engine: PoW::new(difficulty), foreign_parent: 0 },
        after: PoaArm { engine: poa, foreign_parent: first },
    })
}

/// Across a change of digest type, the side is chosen exactly by height: below the fork only a
/// nonce digest can be accepted, and from the fork on only an authority digest.
pub proof fn lemma_pow_to_poa_arms(engine: PowToPoa, parent_digest: PowOrPoaDigest, header: Header<PowOrPoaDigest>)
    ensures
        header.height < engine.fork_height && header.consensus_digest is Poa ==> !engine.accepts(parent_digest, header),
        header.height >= engine.fork_height && header.consensus_digest is Pow ==> !engine.accepts(parent_digest, header),
        header.height < engine.fork_height ==> (engine.accepts(parent_digest, header) <==> (
            header.consensus_digest matches PowOrPoaDigest::Pow(n) && hash_of(
                retag(header, n),
            ) <= engine.before.engine.threshold)),
{
}

} // verus!
