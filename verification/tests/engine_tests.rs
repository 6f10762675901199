use consensus_kit::consensus::{Consensus, ConsensusAuthority, Header};
use consensus_kit::even_only::{almost_valid_but_not_all_even, EvenOnly};
use consensus_kit::forking::{
    change_authorities, change_difficulty, even_after_given_height, pow_to_poa, PowOrPoaDigest,
};
use consensus_kit::interleave::{DoubleEngine, DoubleHeader, Which};
use consensus_kit::poa::{
    PoaRoundRobinByHeight, PoaRoundRobinBySlot, SimplePoa, SlotDigest,
};
use consensus_kit::pow::{commit_sealed, moderate_difficulty_pow, PoW};

fn partial(height: u64, state_root: u64) -> Header<()> {
    Header { parent: 0, height, state_root, extrinsics_root: 0, consensus_digest: () }
}

#[test]
fn moderate_difficulty_is_one_in_a_hundred() {
    let engine = moderate_difficulty_pow();
    assert_eq!(engine.threshold, u64::MAX / 100);
}

#[test]
fn pow_seal_round_trip() {
    let engine = moderate_difficulty_pow();
    let sealed = engine.seal(&0, partial(1, 6)).expect("the nonce search cannot fail here");
    assert!(commit_sealed(&sealed) < engine.threshold);
    assert!(engine.validate(&0, &sealed));
    // Sealing leaves every field but the digest unchanged.
    assert_eq!(sealed.height, 1);
    assert_eq!(sealed.state_root, 6);
}

#[test]
fn pow_rejects_commitment_at_or_above_threshold() {
    let engine = moderate_difficulty_pow();
    let mut header: Header<u64> =
        Header { parent: 0, height: 1, state_root: 0, extrinsics_root: 0, consensus_digest: 0 };
    // Find a digest whose commitment is above the threshold: most are.
    while commit_sealed(&header) < engine.threshold {
        header.consensus_digest += 1;
    }
    assert!(!engine.validate(&0, &header));
}

#[test]
fn simple_poa_round_trip() {
    let engine = SimplePoa { authorities: vec![ConsensusAuthority::Bob, ConsensusAuthority::Alice] };
    let sealed = engine
        .seal(&ConsensusAuthority::Alice, partial(1, 0))
        .expect("the designated authority is in the set");
    assert_eq!(sealed.consensus_digest, ConsensusAuthority::Alice);
    assert!(engine.validate(&ConsensusAuthority::Alice, &sealed));
}

#[test]
fn simple_poa_seal_fails_without_designated_authority() {
    let engine = SimplePoa { authorities: vec![ConsensusAuthority::Bob, ConsensusAuthority::Dave] };
    assert!(engine.seal(&ConsensusAuthority::Bob, partial(1, 0)).is_none());
}

#[test]
fn simple_poa_rejects_outsider() {
    let engine = SimplePoa { authorities: vec![ConsensusAuthority::Bob] };
    let header: Header<ConsensusAuthority> = Header {
        parent: 0,
        height: 1,
        state_root: 0,
        extrinsics_root: 0,
        consensus_digest: ConsensusAuthority::Charlie,
    };
    assert!(!engine.validate(&ConsensusAuthority::Bob, &header));
}

#[test]
fn authority_round_robin_wraps() {
    assert_eq!(ConsensusAuthority::from_index(0), ConsensusAuthority::Alice);
    assert_eq!(ConsensusAuthority::from_index(1), ConsensusAuthority::Bob);
    assert_eq!(ConsensusAuthority::from_index(2), ConsensusAuthority::Charlie);
    assert_eq!(ConsensusAuthority::from_index(3), ConsensusAuthority::Dave);
    assert_eq!(ConsensusAuthority::from_index(4), ConsensusAuthority::Alice);
    assert_eq!(ConsensusAuthority::from_index(7), ConsensusAuthority::Dave);
}

#[test]
fn round_robin_by_height_accepts_exactly_the_designated_signer() {
    let engine = PoaRoundRobinByHeight {
        authorities: vec![
            ConsensusAuthority::Alice,
            ConsensusAuthority::Bob,
            ConsensusAuthority::Charlie,
            ConsensusAuthority::Dave,
        ],
    };
    let good: Header<ConsensusAuthority> = Header {
        parent: 0,
        height: 5,
        state_root: 0,
        extrinsics_root: 0,
        consensus_digest: ConsensusAuthority::from_index(5),
    };
    assert!(engine.validate(&ConsensusAuthority::Alice, &good));

    let bad = Header { consensus_digest: ConsensusAuthority::Charlie, ..good };
    assert!(!engine.validate(&ConsensusAuthority::Alice, &bad));
}

#[test]
fn round_robin_by_height_seal_round_trip() {
    let engine = PoaRoundRobinByHeight { authorities: vec![ConsensusAuthority::Alice] };
    let sealed = engine
        .seal(&ConsensusAuthority::Alice, partial(7, 0))
        .expect("round robin by height always seals");
    assert_eq!(sealed.consensus_digest, ConsensusAuthority::from_index(7));
    assert!(engine.validate(&ConsensusAuthority::Alice, &sealed));
}

#[test]
fn round_robin_by_slot_round_trip() {
    let engine = PoaRoundRobinBySlot { authorities: vec![ConsensusAuthority::Alice] };
    let parent = SlotDigest { slot: 5, signature: ConsensusAuthority::from_index(5) };
    let sealed = engine.seal(&parent, partial(1, 0)).expect("a later slot exists");
    assert_eq!(sealed.consensus_digest.slot, 6);
    assert_eq!(sealed.consensus_digest.signature, ConsensusAuthority::from_index(6));
    assert!(engine.validate(&parent, &sealed));
}

#[test]
fn round_robin_by_slot_rejects_non_increasing_slots() {
    let engine = PoaRoundRobinBySlot { authorities: vec![ConsensusAuthority::Alice] };
    let parent = SlotDigest { slot: 5, signature: ConsensusAuthority::from_index(5) };
    for slot in [0, 4, 5] {
        let header: Header<SlotDigest> = Header {
            parent: 0,
            height: 1,
            state_root: 0,
            extrinsics_root: 0,
            consensus_digest: SlotDigest { slot, signature: ConsensusAuthority::from_index(slot) },
        };
        assert!(!engine.validate(&parent, &header));
    }
}

#[test]
fn round_robin_by_slot_allows_skipped_slots() {
    let engine = PoaRoundRobinBySlot { authorities: vec![ConsensusAuthority::Alice] };
    let parent = SlotDigest { slot: 5, signature: ConsensusAuthority::from_index(5) };
    let header: Header<SlotDigest> = Header {
        parent: 0,
        height: 1,
        state_root: 0,
        extrinsics_root: 0,
        consensus_digest: SlotDigest { slot: 9, signature: ConsensusAuthority::from_index(9) },
    };
    assert!(engine.validate(&parent, &header));

    let wrong_signer: Header<SlotDigest> = Header {
        consensus_digest: SlotDigest { slot: 9, signature: ConsensusAuthority::from_index(8) },
        ..header
    };
    assert!(!engine.validate(&parent, &wrong_signer));
}

#[test]
fn round_robin_by_slot_seal_fails_at_last_slot() {
    let engine = PoaRoundRobinBySlot { authorities: vec![ConsensusAuthority::Alice] };
    let parent = SlotDigest { slot: u64::MAX, signature: ConsensusAuthority::Alice };
    assert!(engine.seal(&parent, partial(1, 0)).is_none());
}

#[test]
fn even_only_round_trip_on_even_state_root() {
    let engine = EvenOnly(moderate_difficulty_pow());
    let sealed = engine.seal(&0, partial(1, 8)).expect("even state roots can be sealed");
    assert!(engine.validate(&0, &sealed));
    // The inner engine alone accepts it too.
    assert!(engine.0.validate(&0, &sealed));
    assert_eq!(sealed.state_root % 2, 0);
}

#[test]
fn even_only_accept_step_keeps_valid_and_drops_invalid() {
    let engine = EvenOnly(PoW { threshold: u64::MAX });
    let even_header: Header<u64> =
        Header { parent: 0, height: 1, state_root: 4, extrinsics_root: 0, consensus_digest: 0 };
    let odd_header: Header<u64> = Header { state_root: 5, ..even_header };
    // A header the combined predicate accepts is handed on unchanged...
    assert_eq!(engine.accept_sealed(&0, even_header), Some(even_header));
    // ... and one it rejects is dropped.
    assert_eq!(engine.accept_sealed(&0, odd_header), None);
}

#[test]
fn even_only_seal_fails_on_odd_state_root() {
    let engine = EvenOnly(moderate_difficulty_pow());
    assert!(engine.seal(&0, partial(1, 7)).is_none());
}

#[test]
fn even_only_rejects_odd_state_root_however_well_sealed() {
    let inner = PoW { threshold: u64::MAX };
    let engine = EvenOnly(inner);
    let header: Header<u64> =
        Header { parent: 0, height: 1, state_root: 3, extrinsics_root: 0, consensus_digest: 0 };
    // The inner engine is satisfied; the wrapper still refuses.
    assert!(inner.validate(&0, &header));
    assert!(!engine.validate(&0, &header));
}

#[test]
fn almost_valid_chain_fails_the_even_wrapper_in_the_middle() {
    let headers = almost_valid_but_not_all_even();
    assert_eq!(headers.len(), 3);
    let inner = moderate_difficulty_pow();
    let wrapper = EvenOnly(moderate_difficulty_pow());
    for h in &headers {
        assert!(inner.validate(&0, h));
    }
    assert!(wrapper.validate(&0, &headers[0]));
    assert!(!wrapper.validate(&0, &headers[1]));
    assert!(wrapper.validate(&0, &headers[2]));
    // The headers link up as a chain.
    assert_eq!(headers[1].parent, commit_sealed(&headers[0]));
    assert_eq!(headers[2].parent, commit_sealed(&headers[1]));
}

#[test]
fn forked_difficulty_change_dispatches_on_height() {
    // Trivial difficulty before the fork, near-impossible after it.
    let engine = change_difficulty(5, u64::MAX, 1);
    let before = engine.seal(&0, partial(4, 0)).expect("difficulty is trivial below the fork");
    assert!(engine.validate(&0, &before));

    // The very same fields at the fork height fail the after-rules.
    let at_fork: Header<u64> = Header { height: 5, ..before };
    assert!(!engine.validate(&0, &at_fork));
}

#[test]
fn forked_authority_change_dispatches_on_height() {
    let engine = change_authorities(
        10,
        vec![ConsensusAuthority::Alice],
        vec![ConsensusAuthority::Bob],
    );
    let before = engine
        .seal(&ConsensusAuthority::Alice, partial(3, 0))
        .expect("the designated authority signs below the fork");
    assert!(engine.validate(&ConsensusAuthority::Alice, &before));

    // After the fork only Bob may sign, so the designated signer is refused.
    assert!(engine.seal(&ConsensusAuthority::Alice, partial(10, 0)).is_none());
    let after: Header<ConsensusAuthority> = Header { height: 10, ..before };
    assert!(!engine.validate(&ConsensusAuthority::Alice, &after));
}

#[test]
fn even_after_given_height_turns_the_rule_on() {
    let engine = even_after_given_height(
        2,
        PoW { threshold: u64::MAX },
        PoW { threshold: u64::MAX },
    );
    // Odd state roots are fine below the fork...
    let early = engine.seal(&0, partial(1, 7)).expect("no evenness rule below the fork");
    assert!(engine.validate(&0, &early));
    // ... and refused from the fork height on.
    assert!(engine.seal(&0, partial(2, 7)).is_none());
    let late = engine.seal(&0, partial(2, 8)).expect("even state roots still seal");
    assert!(engine.validate(&0, &late));
}

#[test]
fn pow_to_poa_handoff() {
    let engine = pow_to_poa(3, u64::MAX / 100, vec![ConsensusAuthority::Alice]);
    let parent = PowOrPoaDigest::Pow(0);

    let mined = engine.seal(&parent, partial(2, 0)).expect("mining succeeds below the fork");
    assert!(matches!(mined.consensus_digest, PowOrPoaDigest::Pow(_)));
    assert!(engine.validate(&parent, &mined));

    let signed = engine.seal(&parent, partial(3, 0)).expect("the authority signs after the fork");
    assert_eq!(signed.consensus_digest, PowOrPoaDigest::Poa(ConsensusAuthority::Alice));
    assert!(engine.validate(&parent, &signed));
}

#[test]
fn pow_to_poa_rejects_wrong_authority_after_fork() {
    let engine = pow_to_poa(3, u64::MAX / 100, vec![ConsensusAuthority::Bob]);
    let header: Header<PowOrPoaDigest> = Header {
        parent: 0,
        height: 4,
        state_root: 0,
        extrinsics_root: 0,
        consensus_digest: PowOrPoaDigest::Poa(ConsensusAuthority::Charlie),
    };
    assert!(!engine.validate(&PowOrPoaDigest::Pow(0), &header));
}

fn double_partial(height: u64) -> DoubleHeader<(), ()> {
    DoubleHeader {
        parent: 0,
        height,
        state_root: 0,
        extrinsics_root: 0,
        consensus_digest: (),
        consensus_digest2: (),
    }
}

#[test]
fn interleave_dispatches_by_parity() {
    let even_header = double_partial(4);
    let odd_header = double_partial(5);
    assert_eq!(
        DoubleEngine::<PoW, PoaRoundRobinByHeight>::validate_with_which(&even_header),
        Which::First
    );
    assert_eq!(
        DoubleEngine::<PoW, PoaRoundRobinByHeight>::validate_with_which(&odd_header),
        Which::Second
    );
}

#[test]
fn interleave_seals_with_the_engine_whose_turn_it_is() {
    let engine = DoubleEngine(
        moderate_difficulty_pow(),
        PoaRoundRobinByHeight { authorities: vec![ConsensusAuthority::Alice] },
    );

    let at_even = engine.seal(double_partial(2)).expect("proof of work seals even heights");
    assert!(engine.validate(&at_even));
    assert_eq!(at_even.height, 2);
    // The odd-height side of the digest is left neutral.
    assert_eq!(at_even.consensus_digest2, ConsensusAuthority::Alice);

    let at_odd = engine.seal(double_partial(3)).expect("the authority seals odd heights");
    assert!(engine.validate(&at_odd));
    assert_eq!(at_odd.consensus_digest2, ConsensusAuthority::from_index(3));
}

#[test]
fn interleave_rejects_the_wrong_sides_seal() {
    let engine = DoubleEngine(
        PoW { threshold: 1 },
        PoaRoundRobinByHeight { authorities: vec![ConsensusAuthority::Alice] },
    );
    // At an odd height the authority engine judges, and the signer is wrong.
    let header: DoubleHeader<u64, ConsensusAuthority> = DoubleHeader {
        parent: 0,
        height: 3,
        state_root: 0,
        extrinsics_root: 0,
        consensus_digest: 0,
        consensus_digest2: ConsensusAuthority::from_index(2),
    };
    assert!(!engine.validate(&header));
}

#[test]
fn double_header_converts_to_single_digest_header() {
    let dh: DoubleHeader<u64, ConsensusAuthority> = DoubleHeader {
        parent: 11,
        height: 12,
        state_root: 13,
        extrinsics_root: 14,
        consensus_digest: 99,
        consensus_digest2: ConsensusAuthority::Bob,
    };
    let h = dh.to_header(ConsensusAuthority::Bob);
    assert_eq!(h.parent, 11);
    assert_eq!(h.height, 12);
    assert_eq!(h.state_root, 13);
    assert_eq!(h.extrinsics_root, 14);
    assert_eq!(h.consensus_digest, ConsensusAuthority::Bob);
}
