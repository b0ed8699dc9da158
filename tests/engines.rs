use block_consensus::alternating::AlternatingPowPoa;
use block_consensus::driver::{linkage_fault, verify_chain, ChainError, ChainFault};
use block_consensus::even_only::{almost_valid_but_not_all_even, EvenOnly};
use block_consensus::forking::{
    change_authorities, change_difficulty, even_after_given_height, pow_to_poa, PowOrPoaDigest,
};
use block_consensus::header::{header_hash, Consensus, ConsensusAuthority, Header, SlotDigest};
use block_consensus::poa::{PoaRoundRobinByHeight, PoaRoundRobinBySlot, SimplePoa};
use block_consensus::pow::{moderate_difficulty_pow, PoW};

fn auth(id: u64) -> ConsensusAuthority {
    ConsensusAuthority { id }
}

fn partial(parent: u64, height: u64, state_root: u64) -> Header<()> {
    Header { parent, height, extrinsics_root: 0, state_root, consensus_digest: () }
}

fn signed<D>(height: u64, state_root: u64, d: D) -> Header<D> {
    Header { parent: 0, height, extrinsics_root: 0, state_root, consensus_digest: d }
}

fn genesis<D>(d: D) -> Header<D> {
    Header { parent: 0, height: 0, extrinsics_root: 0, state_root: 0, consensus_digest: d }
}

/// Seals one child per state root, each on top of the one before, starting from `start`.
fn seal_chain<E: Consensus>(engine: &E, start: &Header<E::Digest>, states: &[u64]) -> Vec<Header<E::Digest>>
where
    E::Digest: Clone,
{
    let mut out: Vec<Header<E::Digest>> = Vec::new();
    let mut prev = start.clone();
    for s in states {
        let p = partial(header_hash(&prev), prev.height + 1, *s);
        let h = engine.seal(&prev.consensus_digest, p).expect("sealable");
        out.push(h.clone());
        prev = h;
    }
    out
}

#[test]
fn moderate_pow_threshold() {
    assert_eq!(moderate_difficulty_pow().threshold, u64::MAX / 100);
}

#[test]
fn pow_validate_compares_hash_with_threshold() {
    let h = signed(1, 0, 42u64);
    let hash = header_hash(&h);
    assert!(PoW::new(hash).validate(&0, &h));
    assert!(PoW::new(u64::MAX).validate(&7, &h));
    if hash > 0 {
        assert!(!PoW::new(hash - 1).validate(&0, &h));
    }
}

#[test]
fn pow_seal_finds_first_nonce() {
    let pow = moderate_difficulty_pow();
    let p = partial(5, 1, 3);
    let h = pow.seal(&0, p).expect("a nonce exists");
    assert!(h.consensus_digest >= 1);
    assert!(header_hash(&h) <= pow.threshold);
    assert!(pow.validate(&0, &h));
    for n in 1..h.consensus_digest {
        let earlier = Header { consensus_digest: n, ..h };
        assert!(header_hash(&earlier) > pow.threshold);
    }
    let again = pow.seal(&99, p).expect("a nonce exists");
    assert_eq!(again, h);
    assert_eq!((h.parent, h.height, h.extrinsics_root, h.state_root), (5, 1, 0, 3));
}

#[test]
fn pow_seal_with_easiest_threshold_uses_nonce_one() {
    let h = PoW::new(u64::MAX).seal(&0, partial(1, 1, 1)).unwrap();
    assert_eq!(h.consensus_digest, 1);
}

#[test]
fn simple_poa_accepts_any_listed_authority() {
    let e = SimplePoa::new(vec![auth(1), auth(2), auth(3)]).unwrap();
    for a in [1, 2, 3] {
        assert!(e.validate(&auth(9), &signed(0, 0, auth(a))));
        assert!(e.validate(&auth(1), &signed(77, 5, auth(a))));
    }
    assert!(!e.validate(&auth(1), &signed(1, 0, auth(4))));
    let h = e.seal(&auth(2), partial(1, 4, 0)).unwrap();
    assert_eq!(h.consensus_digest, auth(1));
    assert!(e.validate(&auth(2), &h));
}

#[test]
fn poa_constructors_reject_empty_sets() {
    assert!(SimplePoa::new(vec![]).is_none());
    assert!(PoaRoundRobinByHeight::new(vec![]).is_none());
    assert!(PoaRoundRobinBySlot::new(vec![]).is_none());
    let empty = SimplePoa { authorities: vec![] };
    assert!(empty.seal(&auth(0), partial(0, 1, 0)).is_none());
    assert!(!empty.validate(&auth(0), &signed(1, 0, auth(0))));
}

#[test]
fn round_robin_by_height_takes_turns() {
    let e = PoaRoundRobinByHeight::new(vec![auth(10), auth(11), auth(12)]).unwrap();
    for k in 0..9u64 {
        let expected = auth(10 + k % 3);
        assert!(e.validate(&auth(0), &signed(k, 0, expected)));
        let off = auth(10 + (k + 1) % 3);
        assert!(!e.validate(&auth(0), &signed(k, 0, off)));
        let h = e.seal(&auth(0), partial(0, k, 0)).unwrap();
        assert_eq!(h.consensus_digest, expected);
    }
}

#[test]
fn round_robin_by_slot_rejects_repeated_slot() {
    let e = PoaRoundRobinBySlot::new(vec![auth(0), auth(1), auth(2)]).unwrap();
    let slots = [3u64, 5, 5, 7];
    let mut parent = SlotDigest { slot: 0, signature: auth(0) };
    let mut results = Vec::new();
    for (i, s) in slots.iter().enumerate() {
        let d = SlotDigest { slot: *s, signature: auth(s % 3) };
        let ok = e.validate(&parent, &signed(i as u64 + 1, 0, d));
        results.push(ok);
        if ok {
            parent = d;
        }
    }
    assert_eq!(results, vec![true, true, false, true]);
}

#[test]
fn round_robin_by_slot_rejects_wrong_signer_and_seals_next_slot() {
    let e = PoaRoundRobinBySlot::new(vec![auth(0), auth(1), auth(2)]).unwrap();
    let parent = SlotDigest { slot: 4, signature: auth(1) };
    assert!(!e.validate(&parent, &signed(1, 0, SlotDigest { slot: 6, signature: auth(1) })));
    let h = e.seal(&parent, partial(0, 1, 0)).unwrap();
    assert_eq!(h.consensus_digest, SlotDigest { slot: 5, signature: auth(2) });
    assert!(e.validate(&parent, &h));
    let last = SlotDigest { slot: u64::MAX, signature: auth(0) };
    assert!(e.seal(&last, partial(0, 1, 0)).is_none());
}

#[test]
fn even_only_adds_parity_rule() {
    let e = EvenOnly::new(SimplePoa::new(vec![auth(1)]).unwrap());
    assert!(e.validate(&auth(1), &signed(1, 4, auth(1))));
    assert!(!e.validate(&auth(1), &signed(1, 3, auth(1))));
    assert!(!e.validate(&auth(1), &signed(1, 4, auth(2))));
    assert!(e.seal(&auth(1), partial(0, 1, 3)).is_none());
    assert_eq!(e.seal(&auth(1), partial(0, 1, 8)).unwrap().consensus_digest, auth(1));
}

#[test]
fn even_only_chain_rejected_at_first_odd_state() {
    let inner = moderate_difficulty_pow();
    let g = genesis(0u64);
    let chain = seal_chain(&inner, &g, &[2, 3, 4, 6]);
    assert_eq!(verify_chain(&inner, &g, &chain), Ok(()));
    let even = EvenOnly::new(inner);
    assert_eq!(
        verify_chain(&even, &g, &chain),
        Err(ChainError { index: 1, fault: ChainFault::ConsensusRejected })
    );
}

#[test]
fn almost_valid_chain_has_one_odd_state() {
    let v = almost_valid_but_not_all_even().expect("sealable");
    assert_eq!(v.len(), 4);
    let states: Vec<u64> = v.iter().map(|h| h.state_root).collect();
    assert_eq!(states, vec![2, 3, 4, 6]);
    let g = genesis(0u64);
    assert_eq!(v[0].parent, header_hash(&g));
    let pow = moderate_difficulty_pow();
    assert!(v.iter().all(|h| pow.validate(&0, h)));
    assert_eq!(verify_chain(&pow, &g, &v), Ok(()));
    let even = EvenOnly::new(pow);
    assert_eq!(
        verify_chain(&even, &g, &v),
        Err(ChainError { index: 1, fault: ChainFault::ConsensusRejected })
    );
}

#[test]
fn alternating_switches_engine() {
    let easy = PoW::new(u64::MAX);
    let never = PoW::new(0);
    let mut e = AlternatingPowPoa::new(easy, never);
    assert!(e.first_active);
    let h = signed(1, 0, 3u64);
    assert!(e.validate(&0, &h));
    e.toggle_engine();
    assert!(!e.first_active);
    assert_eq!(e.validate(&0, &h), header_hash(&h) == 0);
    e.toggle_engine();
    assert!(e.first_active);
    assert_eq!(e.seal(&0, partial(0, 1, 0)).unwrap().consensus_digest, 1);
}

#[test]
fn change_authorities_switches_set_at_fork() {
    let e = change_authorities(3, vec![auth(1)], vec![auth(2)]).unwrap();
    assert!(e.validate(&auth(1), &signed(2, 0, auth(1))));
    assert!(!e.validate(&auth(1), &signed(2, 0, auth(2))));
    assert!(e.validate(&auth(1), &signed(3, 0, auth(2))));
    assert!(!e.validate(&auth(1), &signed(3, 0, auth(1))));
    assert_eq!(e.seal(&auth(1), partial(0, 2, 0)).unwrap().consensus_digest, auth(1));
    assert_eq!(e.seal(&auth(1), partial(0, 3, 0)).unwrap().consensus_digest, auth(2));
    assert!(change_authorities(3, vec![], vec![auth(2)]).is_none());
    assert!(change_authorities(3, vec![auth(1)], vec![]).is_none());
}

#[test]
fn change_difficulty_switches_threshold_at_fork() {
    let e = change_difficulty(2, u64::MAX, 0);
    assert_eq!((e.fork_height, e.before.threshold, e.after.threshold), (2, u64::MAX, 0));
    let before = signed(1, 0, 5u64);
    let after = signed(2, 0, 5u64);
    assert!(e.validate(&0, &before));
    assert_eq!(e.validate(&0, &after), header_hash(&after) == 0);
}

#[test]
fn even_after_given_height_applies_from_fork() {
    let e = even_after_given_height(SimplePoa::new(vec![auth(1)]).unwrap(), 2);
    assert!(e.validate(&auth(1), &signed(1, 3, auth(1))));
    assert!(!e.validate(&auth(1), &signed(2, 3, auth(1))));
    assert!(e.validate(&auth(1), &signed(2, 4, auth(1))));
    assert!(e.seal(&auth(1), partial(0, 1, 3)).is_some());
    assert!(e.seal(&auth(1), partial(0, 2, 3)).is_none());
}

#[test]
fn digest_conversions() {
    assert_eq!(PowOrPoaDigest::from(7u64), PowOrPoaDigest::Pow(7));
    assert_eq!(PowOrPoaDigest::from(auth(3)), PowOrPoaDigest::Poa(auth(3)));
}

#[test]
fn pow_to_poa_arm_selection_is_exact() {
    let e = pow_to_poa(3, u64::MAX, vec![auth(1), auth(2)]).unwrap();
    let g = genesis(PowOrPoaDigest::Pow(0));
    let mut chain: Vec<Header<PowOrPoaDigest>> = Vec::new();
    let mut prev = g;
    for h in 1..=5u64 {
        let next = e.seal(&prev.consensus_digest, partial(header_hash(&prev), h, 0)).unwrap();
        if h < 3 {
            assert!(matches!(next.consensus_digest, PowOrPoaDigest::Pow(_)));
        } else {
            assert_eq!(next.consensus_digest, PowOrPoaDigest::Poa(auth(1)));
        }
        chain.push(next);
        prev = next;
    }
    assert_eq!(verify_chain(&e, &g, &chain), Ok(()));
    // a height-2 header carrying an authority digest is rejected
    assert!(!e.validate(&chain[0].consensus_digest, &Header { consensus_digest: PowOrPoaDigest::Poa(auth(1)), ..chain[1] }));
    // a height-3 header carrying a nonce digest is rejected
    assert!(!e.validate(&chain[1].consensus_digest, &Header { consensus_digest: PowOrPoaDigest::Pow(1), ..chain[2] }));
    assert!(pow_to_poa(3, 1, vec![]).is_none());
}

#[test]
fn end_to_end_tamper_detection() {
    let pow = moderate_difficulty_pow();
    let g = genesis(0u64);
    let child = pow.seal(&g.consensus_digest, partial(header_hash(&g), 1, 0)).unwrap();
    assert!(pow.validate(&g.consensus_digest, &child));
    assert_eq!(verify_chain(&pow, &g, &[child]), Ok(()));
    let grandchild = pow.seal(&child.consensus_digest, partial(header_hash(&child), 2, 0)).unwrap();
    assert_eq!(verify_chain(&pow, &g, &[child, grandchild]), Ok(()));

    let mut tampered = child;
    tampered.extrinsics_root ^= 1;
    assert_ne!(header_hash(&tampered), grandchild.parent);
    assert!(verify_chain(&pow, &g, &[tampered, grandchild]).is_err());
}

#[test]
fn driver_reports_each_fault() {
    let e = SimplePoa::new(vec![auth(1)]).unwrap();
    let g = genesis(auth(1));
    let good = signed(1, 0, auth(1));
    let good = Header { parent: header_hash(&g), ..good };
    assert_eq!(verify_chain(&e, &g, &[]), Ok(()));
    assert_eq!(verify_chain(&e, &g, &[good]), Ok(()));
    let bad_parent = Header { parent: header_hash(&g) ^ 1, ..good };
    assert_eq!(
        verify_chain(&e, &g, &[bad_parent]),
        Err(ChainError { index: 0, fault: ChainFault::ParentMismatch })
    );
    let bad_height = Header { height: 2, ..good };
    assert_eq!(
        verify_chain(&e, &g, &[bad_height]),
        Err(ChainError { index: 0, fault: ChainFault::HeightMismatch })
    );
    let bad_signer = Header { consensus_digest: auth(2), ..good };
    assert_eq!(
        verify_chain(&e, &g, &[bad_signer]),
        Err(ChainError { index: 0, fault: ChainFault::ConsensusRejected })
    );
}

#[test]
fn linkage_fault_on_given_hash() {
    let prev = signed(3, 0, 0u64);
    let h = Header { parent: 41, ..signed(4, 0, 0u64) };
    assert_eq!(linkage_fault(41, &prev, &h), None);
    assert_eq!(linkage_fault(40, &prev, &h), Some(ChainFault::ParentMismatch));
    assert_eq!(linkage_fault(41, &prev, &Header { height: 5, ..h }), Some(ChainFault::HeightMismatch));
    let top = signed(u64::MAX, 0, 0u64);
    assert_eq!(linkage_fault(41, &top, &h), Some(ChainFault::HeightMismatch));
}
