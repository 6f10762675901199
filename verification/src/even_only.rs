//! A higher-order consensus engine: on top of an inner engine's rules, a
//! header must also have an even state root to be valid.

use vstd::prelude::*;
use crate::consensus::{Consensus, Header};
use crate::pow::{commit_sealed, moderate_difficulty_pow, spec_commit_sealed};

verus! {

/// Wraps an inner consensus engine and additionally requires the state root
/// to be even.  The inner engine's rules are enforced unchanged.
pub struct EvenOnly<Inner: Consensus>(pub Inner);

impl<Inner: Consensus> EvenOnly<Inner> {
    /// The accept step of sealing: hand a sealed header on exactly when it
    /// passes the combined predicate.  A valid sealed header is never
    /// discarded, and an invalid one is never returned.
    pub fn accept_sealed(&self, parent_digest: &Inner::Digest, h: Header<Inner::Digest>) -> (r:
        Option<Header<Inner::Digest>>)
        ensures
            r == (if self.valid(*parent_digest, h) {
                Some(h)
            } else {
                None
            }),
    {
        if self.validate(parent_digest, &h) {
            Some(h)
        } else {
            None
        }
    }
}

impl<Inner: Consensus> Consensus for EvenOnly<Inner> {
    type Digest = Inner::Digest;

    /// Valid under the inner engine, and the state root is even.
    open spec fn valid(&self, parent_digest: Inner::Digest, header: Header<Inner::Digest>) -> bool {
        &&& self.0.valid(parent_digest, header)
        &&& header.state_root % 2 == 0
    }

    fn validate(&self, parent_digest: &Inner::Digest, header: &Header<Inner::Digest>) -> (r:
        bool) {
        let inner_valid = self.0.validate(parent_digest, header);
        inner_valid && header.state_root % 2 == 0
    }

    /// Seal with the inner engine, then pass the result through
    /// `accept_sealed`, whose contract pins the step exactly: a sealed
    /// header is handed on when it passes the combined predicate and only
    /// then.  A partial header with an odd state root can never be sealed,
    /// since sealing leaves the state root untouched.
    fn seal(&self, parent_digest: &Inner::Digest, partial_header: Header<()>) -> (r: Option<
        Header<Inner::Digest>,
    >)
        ensures
            partial_header.state_root % 2 != 0 ==> r is None,
    {
        match self.0.seal(parent_digest, partial_header) {
            None => None,
            Some(h) => self.accept_sealed(parent_digest, h),
        }
    }
}

/// Every header of a chain the even-only wrapper accepts has an even state
/// root, and is also accepted by the inner engine alone.
pub proof fn lemma_even_wrapper_implies_inner<Inner: Consensus>(
    engine: EvenOnly<Inner>,
    parent_digest: Inner::Digest,
    header: Header<Inner::Digest>,
)
    requires
        engine.valid(parent_digest, header),
    ensures
        header.state_root % 2 == 0,
        engine.0.valid(parent_digest, header),
{
}

/// A three-header chain sealed by moderate-difficulty proof of work alone:
/// every header is valid under the inner engine, yet the middle header's
/// state root is odd, so the even-only wrapper rejects the chain.
pub fn almost_valid_but_not_all_even() -> (r: Vec<Header<u64>>)
    ensures
        r@.len() <= 3,
        forall|i: int|
            0 <= i < r@.len() ==> spec_commit_sealed(#[trigger] r@[i]) < u64::MAX / 100,
        r@.len() == 3 ==> {
            &&& r@[0].height == 0 && r@[1].height == 1 && r@[2].height == 2
            &&& r@[0].state_root == 0 && r@[1].state_root == 1 && r@[2].state_root == 2
            &&& r@[1].parent == spec_commit_sealed(r@[0])
            &&& r@[2].parent == spec_commit_sealed(r@[1])
        },
{
    let engine = moderate_difficulty_pow();
    let mut headers: Vec<Header<u64>> = Vec::new();
    let p0 = Header::<()> {
        parent: 0,
        height: 0,
        state_root: 0,
        extrinsics_root: 0,
        consensus_digest: (),
    };
    let h0 = match engine.seal(&0u64, p0) {
        Some(h) => h,
        None => {
            return headers;
        },
    };
    headers.push(h0);
    let p1 = Header::<()> {
        parent: commit_sealed(&h0),
        height: 1,
        state_root: 1,
        extrinsics_root: 0,
        consensus_digest: (),
    };
    let h1 = match engine.seal(&0u64, p1) {
        Some(h) => h,
        None => {
            return headers;
        },
    };
    headers.push(h1);
    let p2 = Header::<()> {
        parent: commit_sealed(&h1),
        height: 2,
        state_root: 2,
        extrinsics_root: 0,
        consensus_digest: (),
    };
    let h2 = match engine.seal(&0u64, p2) {
        Some(h) => h,
        None => {
            return headers;
        },
    };
    headers.push(h2);
    headers
}

} // verus!
