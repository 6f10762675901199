use consensus_kit::chain::{
    build_invalid_child_block_with_valid_header, commit_header, Block, Header,
};
use consensus_kit::commit::commit_words;

#[test]
fn bc_4_genesis_header() {
    let g = Header::genesis();
    assert_eq!(g.height, 0);
    assert_eq!(g.parent, 0);
    assert_eq!(g.extrinsics_root, 0);
    assert_eq!(g.state, 0);
}

#[test]
fn bc_4_genesis_block() {
    let gh = Header::genesis();
    let gb = Block::genesis();

    assert_eq!(gb.header, gh);
    assert!(gb.body.is_empty());
}

#[test]
fn bc_4_child_block_empty() {
    let b0 = Block::genesis();
    let b1 = b0.child(vec![]);

    assert_eq!(b1.header.height, 1);
    assert_eq!(b1.header.parent, commit_header(&b0.header));
    assert_eq!(b1, Block { header: b1.header.clone(), body: vec![] });
}

#[test]
fn bc_4_child_block() {
    let b0 = Block::genesis();
    let b1 = b0.child(vec![1, 2, 3, 4, 5]);

    assert_eq!(b1.header.height, 1);
    assert_eq!(b1.header.parent, commit_header(&b0.header));
    assert_eq!(b1, Block { header: b1.header.clone(), body: vec![1, 2, 3, 4, 5] });
}

#[test]
fn bc_4_child_header() {
    let g = Header::genesis();
    let h1 = g.child(commit_words(&vec![1, 2, 3]), 6);

    assert_eq!(h1.height, 1);
    assert_eq!(h1.parent, commit_header(&g));
    assert_eq!(h1.extrinsics_root, commit_words(&vec![1, 2, 3]));
    assert_eq!(h1.state, 6);

    let h2 = h1.child(commit_words(&vec![10, 20]), 36);

    assert_eq!(h2.height, 2);
    assert_eq!(h2.parent, commit_header(&h1));
    assert_eq!(h2.extrinsics_root, commit_words(&vec![10, 20]));
    assert_eq!(h2.state, 36);
}

#[test]
fn bc_4_verify_three_blocks() {
    let g = Block::genesis();
    let b1 = g.child(vec![1]);
    let b2 = b1.child(vec![2]);
    let chain = vec![g.clone(), b1, b2];
    assert!(g.verify_sub_chain(&chain[1..]));
}

#[test]
fn bc_4_invalid_header_does_not_check() {
    let g = Header::genesis();
    let h1 = Header { parent: 0, height: 100, extrinsics_root: 0, state: 100, consensus_digest: 0 };

    assert!(!g.verify_child(&h1));
}

#[test]
fn bc_4_invalid_block_state_does_not_check() {
    let b0 = Block::genesis();
    let mut b1 = b0.child(vec![1, 2, 3]);
    b1.body = vec![];

    assert!(!b0.verify_sub_chain(&[b1]));
}

#[test]
fn bc_4_block_with_invalid_header_does_not_check() {
    let b0 = Block::genesis();
    let mut b1 = b0.child(vec![1, 2, 3]);
    b1.header = Header::genesis();

    assert!(!b0.verify_sub_chain(&[b1]));
}

#[test]
fn bc_4_student_invalid_block_really_is_invalid() {
    let gb = Block::genesis();
    let gh = &gb.header;

    let b1 = build_invalid_child_block_with_valid_header(gh);
    let h1 = &b1.header;

    // The header passes header-level rules.
    assert!(gh.verify_child(h1));

    // The block fails when executed.
    assert!(!gb.verify_sub_chain(&[b1]));
}

#[test]
fn empty_continuation_is_trivially_valid() {
    let g = Block::genesis();
    assert!(g.verify_sub_chain(&[]));
    assert!(g.header.verify_sub_chain(&[]));
}

#[test]
fn execute_exts_sums_the_batch() {
    assert_eq!(Block::execute_exts(0, &vec![]), 0);
    assert_eq!(Block::execute_exts(10, &vec![1, 2, 3]), 16);
    assert_eq!(Block::execute_exts(u64::MAX, &vec![1]), 0);
}

#[test]
fn sub_chain_starting_pair_is_checked() {
    let g = Block::genesis();
    let b1 = g.child(vec![7]);
    let b2 = b1.child(vec![8]);
    // The chain [b2] does not continue g, even though b2 itself is a valid
    // child of b1.
    assert!(!g.verify_sub_chain(&[b2.clone()]));
    assert!(b1.verify_sub_chain(&[b2]));
}

#[test]
fn commit_words_depends_on_every_word() {
    let a = commit_words(&vec![1, 2, 3]);
    let b = commit_words(&vec![1, 2, 4]);
    let c = commit_words(&vec![2, 2, 3]);
    assert_ne!(a, b);
    assert_ne!(a, c);
    // Determinism: the same words give the same commitment.
    assert_eq!(a, commit_words(&vec![1, 2, 3]));
}
