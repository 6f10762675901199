//! The chain data model: headers that commit to a parent, and blocks that
//! batch extrinsics in a body.
//!
//! A header commits to its parent through the commitment function and carries
//! the state reached after executing its block's body.  Verification happens
//! at two independent layers: header linkage (`verify_child`,
//! `verify_sub_chain` on headers) and state-transition validity
//! (`verify_block_child`, `verify_sub_chain` on blocks).  A header can be
//! valid while the block holding it is not, when execution does not reproduce
//! the claimed state.

use vstd::prelude::*;
use vstd::slice::slice_index_get;
use crate::commit::{mix, spec_mix, COMMIT_SEED};

verus! {

/// A chain header.  The body is committed to by `extrinsics_root`; the state
/// after executing the body is stored directly in `state`.
#[derive(Clone, Copy, Debug, PartialEq, Eq, Structural)]
pub struct Header {
    pub parent: u64,
    pub height: u64,
    pub extrinsics_root: u64,
    pub state: u64,
    pub consensus_digest: u64,
}

/// Commitment to a header: every field absorbed in order.
pub open spec fn spec_commit_header(h: Header) -> u64 {
    spec_mix(
        spec_mix(
            spec_mix(spec_mix(spec_mix(COMMIT_SEED, h.parent), h.height), h.extrinsics_root),
            h.state,
        ),
        h.consensus_digest,
    )
}

/// Commitment to a header: every field absorbed in order.
pub fn commit_header(h: &Header) -> (r: u64)
    ensures
        r == spec_commit_header(*h),
{
    mix(
        mix(mix(mix(mix(COMMIT_SEED, h.parent), h.height), h.extrinsics_root), h.state),
        h.consensus_digest,
    )
}

/// The given header with its consensus digest replaced.
pub open spec fn spec_with_digest(h: Header, d: u64) -> Header {
    Header {
        parent: h.parent,
        height: h.height,
        extrinsics_root: h.extrinsics_root,
        state: h.state,
        consensus_digest: d,
    }
}

/// The linkage invariant between a parent header and a child header: the
/// child commits to the parent and sits one level above it.
pub open spec fn spec_child_ok(p: Header, c: Header) -> bool {
    &&& c.parent == spec_commit_header(p)
    &&& c.height == p.height + 1
}

/// Every consecutive pair of `chain`, starting from `p`, satisfies the
/// linkage invariant.  An empty chain holds trivially.
pub open spec fn spec_header_chain_ok(p: Header, chain: Seq<Header>) -> bool {
    forall|i: int|
        0 <= i < chain.len() ==> spec_child_ok(
            if i == 0 {
                p
            } else {
                chain[i - 1]
            },
            #[trigger] chain[i],
        )
}

impl Header {
    /// The canonical zero-valued header every chain starts from.
    pub open spec fn spec_genesis() -> Header {
        Header { parent: 0, height: 0, extrinsics_root: 0, state: 0, consensus_digest: 0 }
    }

    /// Returns a new valid genesis header.
    pub fn genesis() -> (r: Header)
        ensures
            r == Header::spec_genesis(),
    {
        Header { parent: 0, height: 0, extrinsics_root: 0, state: 0, consensus_digest: 0 }
    }

    /// The child of `p` committing to the given extrinsics root and state.
    /// The consensus digest is left zeroed: filling it is the sealing step of
    /// whichever consensus engine is in play, not the chain model's concern.
    pub open spec fn spec_child(p: Header, extrinsics_root: u64, state: u64) -> Header {
        Header {
            parent: spec_commit_header(p),
            height: (p.height + 1) as u64,
            extrinsics_root,
            state,
            consensus_digest: 0,
        }
    }

    /// Create and return a valid child header.  Without the extrinsics
    /// themselves the final state cannot be computed here, so it is passed in.
    pub fn child(&self, extrinsics_root: u64, state: u64) -> (r: Header)
        requires
            self.height < u64::MAX,
        ensures
            r == Header::spec_child(*self, extrinsics_root, state),
            spec_child_ok(*self, r),
    {
        Header {
            parent: commit_header(self),
            height: self.height + 1,
            extrinsics_root,
            state,
            consensus_digest: 0,
        }
    }

    /// Verify a single child header against this one.
    pub fn verify_child(&self, child: &Header) -> (r: bool)
        ensures
            r == spec_child_ok(*self, *child),
    {
        child.parent == commit_header(self) && self.height < u64::MAX && child.height
            == self.height + 1
    }

    /// Verify that the given headers all chain from this header to the tip.
    pub fn verify_sub_chain(&self, chain: &[Header]) -> (r: bool)
        ensures
            r == spec_header_chain_ok(*self, chain@),
    {
        let n = chain.len();
        if n == 0 {
            return true;
        }
        if !self.verify_child(slice_index_get(chain, 0)) {
            assert(!spec_child_ok(*self, chain@[0]));
            return false;
        }
        for i in 1..n
            invariant
                n == chain@.len(),
                spec_child_ok(*self, chain@[0]),
                forall|j: int|
                    1 <= j < i ==> spec_child_ok(chain@[j - 1], #[trigger] chain@[j]),
        {
            if !slice_index_get(chain, i - 1).verify_child(slice_index_get(chain, i)) {
                assert(!spec_child_ok(chain@[i - 1], chain@[i as int]));
                return false;
            }
        }
        true
    }
}

/// A complete block: a header plus the batch of extrinsics it commits to.
#[derive(Clone, Debug, PartialEq, Eq)]
pub struct Block {
    pub header: Header,
    pub body: Vec<u64>,
}

/// The state-transition function: fold the extrinsics into the state, left
/// to right, with wrapping addition.  Deterministic and total.
pub open spec fn spec_apply(state: u64, exts: Seq<u64>) -> u64
    decreases exts.len(),
{
    if exts.len() == 0 {
        state
    } else {
        spec_apply(state, exts.drop_last()).wrapping_add(exts.last())
    }
}

/// The block-level invariant between a parent block and a child block:
/// header linkage holds and the child's claimed state is reproduced by
/// executing its body on the parent's state.
pub open spec fn spec_block_child_ok(p: Block, c: Block) -> bool {
    &&& spec_child_ok(p.header, c.header)
    &&& c.header.state == spec_apply(p.header.state, c.body@)
}

/// Every consecutive pair of `chain`, starting from `p`, satisfies the
/// block-level invariant.  An empty chain holds trivially.
pub open spec fn spec_block_chain_ok(p: Block, chain: Seq<Block>) -> bool {
    forall|i: int|
        0 <= i < chain.len() ==> spec_block_child_ok(
            if i == 0 {
                p
            } else {
                chain[i - 1]
            },
            #[trigger] chain[i],
        )
}

/// A header chain continued by nothing is trivially valid; in particular the
/// genesis header alone passes `verify_sub_chain`.
pub proof fn lemma_empty_header_chain_valid(h: Header)
    ensures
        spec_header_chain_ok(h, Seq::<Header>::empty()),
{
}

/// A block chain continued by nothing is trivially valid; in particular the
/// genesis block alone passes `verify_sub_chain`.
pub proof fn lemma_empty_chain_valid(b: Block)
    ensures
        spec_block_chain_ok(b, Seq::<Block>::empty()),
{
}

impl Block {
    /// Returns a new valid genesis block.  By convention it has no extrinsics.
    pub fn genesis() -> (r: Block)
        ensures
            r.header == Header::spec_genesis(),
            r.body@ =~= Seq::<u64>::empty(),
    {
        Block { header: Header::genesis(), body: Vec::new() }
    }

    /// Execute the extrinsics on the given state.
    pub fn execute_exts(prev_state: u64, exts: &Vec<u64>) -> (r: u64)
        ensures
            r == spec_apply(prev_state, exts@),
    {
        let mut state: u64 = prev_state;
        for i in 0..exts.len()
            invariant
                state == spec_apply(prev_state, exts@.take(i as int)),
        {
            state = state.wrapping_add(exts[i]);
            proof {
                assert(exts@.take(i + 1).drop_last() =~= exts@.take(i as int));
                assert(exts@.take(i + 1).last() == exts@[i as int]);
            }
        }
        proof {
            assert(exts@.take(exts.len() as int) =~= exts@);
        }
        state
    }

    /// Create and return a valid child block.  The extrinsics are batched, so
    /// each of them is executed to compute the child's state.
    pub fn child(&self, extrinsics: Vec<u64>) -> (r: Block)
        requires
            self.header.height < u64::MAX,
        ensures
            r.header == Header::spec_child(
                self.header,
                crate::commit::spec_commit_words(extrinsics@),
                spec_apply(self.header.state, extrinsics@),
            ),
            r.body@ == extrinsics@,
            spec_block_child_ok(*self, r),
    {
        let new_state = Block::execute_exts(self.header.state, &extrinsics);
        let root = crate::commit::commit_words(&extrinsics);
        Block { header: self.header.child(root, new_state), body: extrinsics }
    }

    /// Verify a parent block and a child block against each other.
    pub fn verify_block_child(parent: &Block, child: &Block) -> (r: bool)
        ensures
            r == spec_block_child_ok(*parent, *child),
    {
        let header_cond = parent.header.verify_child(&child.header);
        let body_cond = child.header.state == Block::execute_exts(parent.header.state, &child.body);
        header_cond && body_cond
    }

    /// Verify that the given blocks all chain from this block to the tip,
    /// executing every body along the way.
    pub fn verify_sub_chain(&self, chain: &[Block]) -> (r: bool)
        ensures
            r == spec_block_chain_ok(*self, chain@),
    {
        let n = chain.len();
        if n == 0 {
            return true;
        }
        if !Block::verify_block_child(self, slice_index_get(chain, 0)) {
            assert(!spec_block_child_ok(*self, chain@[0]));
            return false;
        }
        for i in 1..n
            invariant
                n == chain@.len(),
                spec_block_child_ok(*self, chain@[0]),
                forall|j: int|
                    1 <= j < i ==> spec_block_child_ok(chain@[j - 1], #[trigger] chain@[j]),
        {
            if !Block::verify_block_child(slice_index_get(chain, i - 1), slice_index_get(chain, i)) {
                assert(!spec_block_child_ok(chain@[i - 1], chain@[i as int]));
                return false;
            }
        }
        true
    }
}

/// Create an invalid child block of the given header whose own header is
/// nonetheless valid: it claims a state that executing its (empty) body does
/// not reproduce, unless the parent already sat at that state.  Header
/// checks pass while block-level execution checks fail, which is exactly the
/// decoupling of the two verification layers.
pub fn build_invalid_child_block_with_valid_header(parent: &Header) -> (r: Block)
    requires
        parent.height < u64::MAX,
    ensures
        r.header == Header::spec_child(*parent, 0, u64::MAX),
        spec_child_ok(*parent, r.header),
        r.body@ =~= Seq::<u64>::empty(),
{
    Block { header: parent.child(0, u64::MAX), body: Vec::new() }
}

} // verus!
