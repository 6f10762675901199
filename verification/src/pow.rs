//! Proof of work: a block author must expend a scarce resource — here, a
//! search through nonces — to produce a valid header.
//!
//! A header is valid when its commitment falls below the engine's difficulty
//! threshold; sealing searches nonces from zero upward until one works, and
//! reports failure only when the whole nonce space is exhausted.

use vstd::prelude::*;
use crate::commit::{mix, spec_mix, COMMIT_SEED};
use crate::consensus::{Consensus, Header};

verus! {

/// Commitment to a sealed header: every field absorbed in order.
pub open spec fn spec_commit_sealed(h: Header<u64>) -> u64 {
    spec_mix(
        spec_mix(
            spec_mix(spec_mix(spec_mix(COMMIT_SEED, h.parent), h.height), h.state_root),
            h.extrinsics_root,
        ),
        h.consensus_digest,
    )
}

/// Commitment to a sealed header: every field absorbed in order.
pub fn commit_sealed(h: &Header<u64>) -> (r: u64)
    ensures
        r == spec_commit_sealed(*h),
{
    mix(
        mix(mix(mix(mix(COMMIT_SEED, h.parent), h.height), h.state_root), h.extrinsics_root),
        h.consensus_digest,
    )
}

/// A proof-of-work consensus engine with a difficulty threshold.
#[derive(Clone, Copy, Debug, PartialEq, Eq, Structural)]
pub struct PoW {
    pub threshold: u64,
}

impl Consensus for PoW {
    type Digest = u64;

    /// The header's commitment lies below the threshold.  The parent digest
    /// plays no part.
    open spec fn valid(&self, parent_digest: u64, header: Header<u64>) -> bool {
        spec_commit_sealed(header) < self.threshold
    }

    fn validate(&self, parent_digest: &u64, header: &Header<u64>) -> (r: bool) {
        commit_sealed(header) < self.threshold
    }

    /// Mine a new seal for the partial header: try nonces from zero upward
    /// and return the first that brings the commitment below the threshold.
    /// Nothing is returned only when no nonce at all succeeds.
    fn seal(&self, parent_digest: &u64, partial_header: Header<()>) -> (r: Option<Header<u64>>)
        ensures
            (r matches Some(h) ==> spec_commit_sealed(h) < self.threshold && forall|d: u64|
                d < h.consensus_digest ==> spec_commit_sealed(partial_header.spec_with_digest(d))
                    >= self.threshold),
            r is None ==> forall|d: u64|
                spec_commit_sealed(#[trigger] partial_header.spec_with_digest(d))
                    >= self.threshold,
    {
        let mut header: Header<u64> = partial_header.convert_to_digest(0u64);
        loop
            invariant
                header == partial_header.spec_with_digest(header.consensus_digest),
                forall|d: u64|
                    d < header.consensus_digest ==> spec_commit_sealed(
                        #[trigger] partial_header.spec_with_digest(d),
                    ) >= self.threshold,
            ensures
                header == partial_header.spec_with_digest(header.consensus_digest),
                forall|d: u64|
                    d < header.consensus_digest ==> spec_commit_sealed(
                        #[trigger] partial_header.spec_with_digest(d),
                    ) >= self.threshold,
                spec_commit_sealed(header) < self.threshold || (header.consensus_digest
                    == u64::MAX && spec_commit_sealed(header) >= self.threshold),
            decreases u64::MAX - header.consensus_digest,
        {
            if commit_sealed(&header) < self.threshold {
                break;
            }
            if header.consensus_digest == u64::MAX {
                break;
            }
            header.consensus_digest = header.consensus_digest + 1;
        }
        if commit_sealed(&header) < self.threshold {
            Some(header)
        } else {
            None
        }
    }
}

/// A proof-of-work engine whose difficulty makes roughly 1 in 100 randomly
/// drawn nonces valid.
pub fn moderate_difficulty_pow() -> (r: PoW)
    ensures
        r.threshold == u64::MAX / 100,
{
    PoW { threshold: u64::MAX / 100 }
}

} // verus!
