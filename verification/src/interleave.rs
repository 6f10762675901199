//! Interleaved consensus: two engines take turns by height parity.  Even
//! heights are governed by the first engine, odd heights by the second, so a
//! chain alternates between the two rule sets block by block.

use vstd::prelude::*;
use crate::consensus::{Consensus, ConsensusAuthority, Header};
use crate::poa::SlotDigest;

verus! {

/// Which of two inner engines governs a given header.
#[derive(Clone, Copy, Debug, PartialEq, Eq, Structural)]
pub enum Which {
    First,
    Second,
}

/// A digest value standing for "no seal required": what an engine is told
/// its parent carried when no meaningful parent digest exists.
pub trait NeutralDigest: Sized {
    /// The neutral value.
    spec fn spec_neutral() -> Self;

    /// The neutral value.
    fn neutral() -> (r: Self)
        ensures
            r == Self::spec_neutral(),
    ;
}

impl NeutralDigest for u64 {
    open spec fn spec_neutral() -> u64 {
        0
    }

    fn neutral() -> u64 {
        0
    }
}

impl NeutralDigest for ConsensusAuthority {
    open spec fn spec_neutral() -> ConsensusAuthority {
        ConsensusAuthority::Alice
    }

    fn neutral() -> ConsensusAuthority {
        ConsensusAuthority::Alice
    }
}

impl NeutralDigest for SlotDigest {
    open spec fn spec_neutral() -> SlotDigest {
        SlotDigest { slot: 0, signature: ConsensusAuthority::Alice }
    }

    fn neutral() -> SlotDigest {
        SlotDigest { slot: 0, signature: ConsensusAuthority::Alice }
    }
}

/// A header that carries both engines' digests.  Exactly one of the two is
/// the active one for any given header, selected by height parity.
#[derive(Clone, Copy, Debug, PartialEq, Eq)]
pub struct DoubleHeader<Digest1, Digest2> {
    pub parent: u64,
    pub height: u64,
    pub state_root: u64,
    pub extrinsics_root: u64,
    pub consensus_digest: Digest1,
    pub consensus_digest2: Digest2,
}

impl<Digest1, Digest2> DoubleHeader<Digest1, Digest2> {
    /// The single-digest header carrying this header's fields and the given
    /// digest.
    pub open spec fn spec_to_header<T>(self, d: T) -> Header<T> {
        Header {
            parent: self.parent,
            height: self.height,
            state_root: self.state_root,
            extrinsics_root: self.extrinsics_root,
            consensus_digest: d,
        }
    }

    /// Convert to the single-digest header an inner engine consumes.
    pub fn to_header<T>(&self, digest: T) -> (r: Header<T>)
        ensures
            r == self.spec_to_header(digest),
    {
        Header {
            parent: self.parent,
            height: self.height,
            state_root: self.state_root,
            extrinsics_root: self.extrinsics_root,
            consensus_digest: digest,
        }
    }
}

/// A consensus engine that alternates between two inner engines by height
/// parity: the first engine governs even heights, the second odd heights.
pub struct DoubleEngine<E1: Consensus, E2: Consensus>(pub E1, pub E2);

impl<E1: Consensus, E2: Consensus> DoubleEngine<E1, E2> where
    E1::Digest: NeutralDigest,
    E2::Digest: NeutralDigest,
 {
    /// Valid under whichever engine the header's height parity selects,
    /// reading only that engine's sub-digest.  The inner engine is handed
    /// the neutral parent digest, so only parent-independent engines are
    /// meaningfully interleaved.
    pub open spec fn valid(&self, header: DoubleHeader<E1::Digest, E2::Digest>) -> bool {
        if header.height % 2 == 0 {
            self.0.valid(
                <E1::Digest as NeutralDigest>::spec_neutral(),
                header.spec_to_header(header.consensus_digest),
            )
        } else {
            self.1.valid(
                <E2::Digest as NeutralDigest>::spec_neutral(),
                header.spec_to_header(header.consensus_digest2),
            )
        }
    }

    /// The engine whose turn it is at the given header's height.
    pub fn validate_with_which<D1, D2>(header: &DoubleHeader<D1, D2>) -> (r: Which)
        ensures
            (r == Which::First) <==> header.height % 2 == 0,
    {
        if header.height % 2 == 0 {
            Which::First
        } else {
            Which::Second
        }
    }

    /// Check a header under the engine its height parity selects.
    pub fn validate(&self, header: &DoubleHeader<E1::Digest, E2::Digest>) -> (r: bool)
        ensures
            r == self.valid(*header),
    {
        match Self::validate_with_which(header) {
            Which::First => {
                let neutral = <E1::Digest as NeutralDigest>::neutral();
                self.0.validate(&neutral, &header.to_header(header.consensus_digest))
            },
            Which::Second => {
                let neutral = <E2::Digest as NeutralDigest>::neutral();
                self.1.validate(&neutral, &header.to_header(header.consensus_digest2))
            },
        }
    }

    /// Seal with the engine whose turn it is: the first engine on even
    /// heights, the second on odd heights.  The inactive side of the sealed
    /// header carries its neutral digest.
    pub fn seal(&self, partial_header: DoubleHeader<(), ()>) -> (r: Option<
        DoubleHeader<E1::Digest, E2::Digest>,
    >)
        ensures
            (r matches Some(h) ==> self.valid(h) && h.parent == partial_header.parent && h.height
                == partial_header.height && h.state_root == partial_header.state_root
                && h.extrinsics_root == partial_header.extrinsics_root),
            (r matches Some(h) ==> (partial_header.height % 2 == 0 ==> h.consensus_digest2
                == <E2::Digest as NeutralDigest>::spec_neutral())),
            (r matches Some(h) ==> (partial_header.height % 2 != 0 ==> h.consensus_digest
                == <E1::Digest as NeutralDigest>::spec_neutral())),
    {
        match Self::validate_with_which(&partial_header) {
            Which::First => {
                let neutral = <E1::Digest as NeutralDigest>::neutral();
                match self.0.seal(&neutral, partial_header.to_header(())) {
                    None => None,
                    Some(h) => {
                        let dh = DoubleHeader {
                            parent: h.parent,
                            height: h.height,
                            state_root: h.state_root,
                            extrinsics_root: h.extrinsics_root,
                            consensus_digest: h.consensus_digest,
                            consensus_digest2: <E2::Digest as NeutralDigest>::neutral(),
                        };
                        proof {
                            assert(dh.spec_to_header(dh.consensus_digest) == h);
                        }
                        Some(dh)
                    },
                }
            },
            Which::Second => {
                let neutral = <E2::Digest as NeutralDigest>::neutral();
                match self.1.seal(&neutral, partial_header.to_header(())) {
                    None => None,
                    Some(h) => {
                        let dh = DoubleHeader {
                            parent: h.parent,
                            height: h.height,
                            state_root: h.state_root,
                            extrinsics_root: h.extrinsics_root,
                            consensus_digest: <E1::Digest as NeutralDigest>::neutral(),
                            consensus_digest2: h.consensus_digest,
                        };
                        proof {
                            assert(dh.spec_to_header(dh.consensus_digest2) == h);
                        }
                        Some(dh)
                    },
                }
            },
        }
    }
}

} // verus!
