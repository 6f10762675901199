//! Proof of authority: a set of named authorities signs blocks.  Three
//! variants are provided.
//!
//! * Open set: any member of the authority set may sign any block.
//! * Round robin by height: exactly one authority is valid at each height.
//! * Round robin by slot: time is divided into slots; each slot has one
//!   designated signer, and slots must strictly increase along the chain
//!   (slots may be skipped).

use vstd::prelude::*;
use crate::consensus::{Consensus, ConsensusAuthority, Header};

verus! {

/// Whether `who` is a member of the authority list.
pub fn is_member(authorities: &Vec<ConsensusAuthority>, who: ConsensusAuthority) -> (r: bool)
    ensures
        r == authorities@.contains(who),
{
    let n = authorities.len();
    for i in 0..n
        invariant
            n == authorities@.len(),
            forall|j: int| 0 <= j < i ==> authorities@[j] != who,
    {
        if authorities[i] == who {
            assert(authorities@[i as int] == who);
            return true;
        }
    }
    false
}

/// Open-set proof of authority: a header is valid when any member of the
/// authority set has signed it.
pub struct SimplePoa {
    pub authorities: Vec<ConsensusAuthority>,
}

impl Consensus for SimplePoa {
    type Digest = ConsensusAuthority;

    /// The recorded signer belongs to the authority set.  The parent digest
    /// plays no part.
    open spec fn valid(
        &self,
        parent_digest: ConsensusAuthority,
        header: Header<ConsensusAuthority>,
    ) -> bool {
        self.authorities@.contains(header.consensus_digest)
    }

    fn validate(
        &self,
        parent_digest: &ConsensusAuthority,
        header: &Header<ConsensusAuthority>,
    ) -> (r: bool) {
        is_member(&self.authorities, header.consensus_digest)
    }

    /// Sign as the designated authority.  If the designated authority is not
    /// in the set, no valid seal can be produced this way and nothing is
    /// returned.
    fn seal(&self, parent_digest: &ConsensusAuthority, partial_header: Header<()>) -> (r: Option<
        Header<ConsensusAuthority>,
    >)
        ensures
            r is Some <==> self.authorities@.contains(ConsensusAuthority::Alice),
            (r matches Some(h) ==> h.consensus_digest == ConsensusAuthority::Alice),
    {
        if is_member(&self.authorities, ConsensusAuthority::Alice) {
            Some(partial_header.convert_to_digest(ConsensusAuthority::Alice))
        } else {
            None
        }
    }
}

/// Round-robin-by-height proof of authority: the authorities take turns in
/// order, one valid signer per block height.  A single non-participating
/// authority halts the chain outright at its height — a known, intentional
/// weakness of this scheme.
pub struct PoaRoundRobinByHeight {
    pub authorities: Vec<ConsensusAuthority>,
}

impl Consensus for PoaRoundRobinByHeight {
    type Digest = ConsensusAuthority;

    /// The recorded signer is exactly the authority the header's height
    /// points at.
    open spec fn valid(
        &self,
        parent_digest: ConsensusAuthority,
        header: Header<ConsensusAuthority>,
    ) -> bool {
        header.consensus_digest == ConsensusAuthority::spec_from_index(header.height)
    }

    fn validate(
        &self,
        parent_digest: &ConsensusAuthority,
        header: &Header<ConsensusAuthority>,
    ) -> (r: bool) {
        header.consensus_digest == ConsensusAuthority::from_index(header.height)
    }

    /// Sign as the authority whose turn it is at the partial header's height.
    fn seal(&self, parent_digest: &ConsensusAuthority, partial_header: Header<()>) -> (r: Option<
        Header<ConsensusAuthority>,
    >)
        ensures
            r is Some,
            (r matches Some(h) ==> h.consensus_digest == ConsensusAuthority::spec_from_index(
                partial_header.height,
            )),
    {
        Some(partial_header.convert_to_digest(ConsensusAuthority::from_index(partial_header.height)))
    }
}

/// The digest for slot-based round robin: the slot claimed and the signer.
#[derive(Clone, Copy, Debug, PartialEq, Eq, Structural, Hash)]
pub struct SlotDigest {
    pub slot: u64,
    pub signature: ConsensusAuthority,
}

/// Round-robin-by-slot proof of authority.  Unlike the by-height variant, a
/// missed turn does not halt the chain: the next signer claims a later slot.
pub struct PoaRoundRobinBySlot {
    pub authorities: Vec<ConsensusAuthority>,
}

impl Consensus for PoaRoundRobinBySlot {
    type Digest = SlotDigest;

    /// The claimed slot strictly exceeds the parent's (slots may be skipped,
    /// never reused or rewound), and the signer is the authority designated
    /// for that slot.
    open spec fn valid(&self, parent_digest: SlotDigest, header: Header<SlotDigest>) -> bool {
        &&& header.consensus_digest.slot > parent_digest.slot
        &&& header.consensus_digest.signature == ConsensusAuthority::spec_from_index(
            header.consensus_digest.slot,
        )
    }

    fn validate(&self, parent_digest: &SlotDigest, header: &Header<SlotDigest>) -> (r: bool) {
        let slot_cond = header.consensus_digest.slot > parent_digest.slot;
        let auth_cond = header.consensus_digest.signature == ConsensusAuthority::from_index(
            header.consensus_digest.slot,
        );
        slot_cond && auth_cond
    }

    /// Claim the slot right after the parent's and sign as its designated
    /// authority.  Only when the parent already sits at the last slot is no
    /// strictly greater slot available.
    fn seal(&self, parent_digest: &SlotDigest, partial_header: Header<()>) -> (r: Option<
        Header<SlotDigest>,
    >)
        ensures
            r is Some <==> parent_digest.slot < u64::MAX,
            (r matches Some(h) ==> h.consensus_digest.slot == parent_digest.slot + 1
                && h.consensus_digest.signature == ConsensusAuthority::spec_from_index(
                h.consensus_digest.slot,
            )),
    {
        if parent_digest.slot == u64::MAX {
            return None;
        }
        let slot = parent_digest.slot + 1;
        let digest = SlotDigest { slot, signature: ConsensusAuthority::from_index(slot) };
        Some(partial_header.convert_to_digest(digest))
    }
}

/// Any two valid consecutive headers of a slot-based round-robin chain have
/// strictly increasing slots.
pub proof fn lemma_slot_strictly_increases(
    engine: PoaRoundRobinBySlot,
    parent_digest: SlotDigest,
    header: Header<SlotDigest>,
)
    requires
        engine.valid(parent_digest, header),
    ensures
        header.consensus_digest.slot > parent_digest.slot,
{
}

/// A header whose slot does not increase past its parent's is rejected, for
/// every slot at or below the parent's.
pub proof fn lemma_non_increasing_slot_rejected(
    engine: PoaRoundRobinBySlot,
    parent_digest: SlotDigest,
    header: Header<SlotDigest>,
)
    requires
        header.consensus_digest.slot <= parent_digest.slot,
    ensures
        !engine.valid(parent_digest, header),
{
}

} // verus!
