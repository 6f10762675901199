//! The uniform consensus engine contract.
//!
//! An engine is polymorphic over an associated digest type — a nonce, a
//! signer identity, a slot-and-signer pair, or a sum of these — and exposes
//! exactly two operations: `validate`, a pure predicate over a header and its
//! parent's digest, and `seal`, which attempts to produce a digest making a
//! partial header valid under the same engine.  The defining law of every
//! engine, stated once here in `seal`'s contract, is that whatever `seal`
//! returns passes `validate` with the same parent digest.

use vstd::prelude::*;

verus! {

/// A header generic over the consensus digest it carries.  Unlike the chain
/// model's header, the state lives behind a commitment, `state_root`.
#[derive(Clone, Copy, Debug, PartialEq, Eq)]
pub struct Header<Digest> {
    pub parent: u64,
    pub height: u64,
    pub state_root: u64,
    pub extrinsics_root: u64,
    pub consensus_digest: Digest,
}

impl<Digest> Header<Digest> {
    /// This header with the given digest in place of its own.
    pub open spec fn spec_with_digest<T>(self, d: T) -> Header<T> {
        Header {
            parent: self.parent,
            height: self.height,
            state_root: self.state_root,
            extrinsics_root: self.extrinsics_root,
            consensus_digest: d,
        }
    }

    /// Attach a digest to this header, replacing whatever it carried.
    pub fn convert_to_digest<T>(&self, digest: T) -> (r: Header<T>)
        ensures
            r == self.spec_with_digest(digest),
    {
        Header {
            parent: self.parent,
            height: self.height,
            state_root: self.state_root,
            extrinsics_root: self.extrinsics_root,
            consensus_digest: digest,
        }
    }
}

/// A closed set of identities that may author blocks.  Authority is a name,
/// not a key: no cryptographic signature is modelled.
#[derive(Clone, Copy, Debug, PartialEq, Eq, Structural, Hash)]
pub enum ConsensusAuthority {
    Alice,
    Bob,
    Charlie,
    Dave,
}

impl ConsensusAuthority {
    /// The authority responsible for position `n`: a round robin over the
    /// whole set.
    pub open spec fn spec_from_index(n: u64) -> ConsensusAuthority {
        if n % 4 == 0 {
            ConsensusAuthority::Alice
        } else if n % 4 == 1 {
            ConsensusAuthority::Bob
        } else if n % 4 == 2 {
            ConsensusAuthority::Charlie
        } else {
            ConsensusAuthority::Dave
        }
    }

    /// The authority responsible for position `n`: a round robin over the
    /// whole set.
    pub fn from_index(n: u64) -> (r: ConsensusAuthority)
        ensures
            r == ConsensusAuthority::spec_from_index(n),
    {
        let m = n % 4;
        if m == 0 {
            ConsensusAuthority::Alice
        } else if m == 1 {
            ConsensusAuthority::Bob
        } else if m == 2 {
            ConsensusAuthority::Charlie
        } else {
            ConsensusAuthority::Dave
        }
    }
}

/// A consensus engine: the uniform `validate`/`seal` contract.
pub trait Consensus: Sized {
    /// The consensus-specific payload carried per header.
    type Digest: Copy;

    /// Whether `header` is valid under this engine's rules, given the digest
    /// its parent carries.  Engines that need no context ignore the parent
    /// digest.
    spec fn valid(&self, parent_digest: Self::Digest, header: Header<Self::Digest>) -> bool;

    /// Check the provided header.  A pure predicate: the answer depends only
    /// on the header and the parent digest.
    fn validate(&self, parent_digest: &Self::Digest, header: &Header<Self::Digest>) -> (r: bool)
        ensures
            r == self.valid(*parent_digest, *header),
    ;

    /// Attempt to produce a digest that makes the partial header valid under
    /// this same engine.  Returning nothing is a signal — no valid digest
    /// could be produced — not necessarily fatal to the caller.  Every
    /// header returned validates against the same parent digest and carries
    /// the partial header's fields unchanged: `seal` and `validate` are
    /// mutually consistent.
    fn seal(&self, parent_digest: &Self::Digest, partial_header: Header<()>) -> (r: Option<
        Header<Self::Digest>,
    >)
        ensures
            (r matches Some(h) ==> self.valid(*parent_digest, h) && h.parent
                == partial_header.parent && h.height == partial_header.height && h.state_root
                == partial_header.state_root && h.extrinsics_root
                == partial_header.extrinsics_root),
    ;
}

} // verus!
