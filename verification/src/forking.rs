//! Forks between rule sets: a higher-order engine that enforces one set of
//! consensus rules below a fixed height and another from that height on.
//!
//! The two inner engines may even disagree on the shape of their digests; a
//! total, bidirectional conversion between each inner digest type and one
//! shared outer representation is supplied as a trait, so a chain can switch
//! rules — and digest shape — at the fork height without its callers
//! knowing which rule is active.

use vstd::prelude::*;
use core::marker::PhantomData;
use crate::consensus::{Consensus, ConsensusAuthority, Header};
use crate::even_only::EvenOnly;
use crate::poa::SimplePoa;
use crate::pow::PoW;

verus! {

/// A total, bidirectional conversion between an engine's digest type and a
/// shared outer representation.  Where the two inner digest shapes are
/// incompatible, the outer representation is a tagged union able to hold
/// either exactly; a conversion that cannot represent a value must not
/// exist.
pub trait DigestConvert<Outer>: Sized {
    /// The outer representation of this digest.
    spec fn spec_to_outer(self) -> Outer;

    /// The digest an outer representation stands for.
    spec fn spec_from_outer(o: Outer) -> Self;

    /// Convert this digest to the outer representation.
    fn to_outer(self) -> (r: Outer)
        ensures
            r == self.spec_to_outer(),
    ;

    /// Read this digest back out of the outer representation.
    fn from_outer(o: Outer) -> (r: Self)
        ensures
            r == Self::spec_from_outer(o),
    ;

    /// The conversion is lossless: a digest sent out and read back is
    /// unchanged.
    proof fn lemma_roundtrip(self)
        ensures
            Self::spec_from_outer(self.spec_to_outer()) == self,
    ;
}

/// Every digest type converts to itself, unchanged, for forks that keep one
/// digest shape on both sides.
impl<T> DigestConvert<T> for T {
    open spec fn spec_to_outer(self) -> T {
        self
    }

    open spec fn spec_from_outer(o: T) -> T {
        o
    }

    fn to_outer(self) -> T {
        self
    }

    fn from_outer(o: T) -> T {
        o
    }

    proof fn lemma_roundtrip(self) {
    }
}

/// A higher-order consensus engine that represents a change from one set of
/// consensus rules (`Before`) to another (`After`) at a specific height.
pub struct Forked<D, Before, After> {
    /// The first block height at which the new consensus rules apply.
    pub fork_height: u64,
    pub digest: PhantomData<D>,
    pub engines: (Before, After),
}

impl<D: Copy, B, A> Consensus for Forked<D, B, A> where
    B: Consensus,
    A: Consensus,
    B::Digest: DigestConvert<D>,
    A::Digest: DigestConvert<D>,
 {
    type Digest = D;

    /// Below the fork height the before-engine judges the header, from the
    /// fork height on the after-engine does; the parent digest and the
    /// header's digest are carried across the representation boundary on
    /// each call.
    open spec fn valid(&self, parent_digest: D, header: Header<D>) -> bool {
        if header.height < self.fork_height {
            self.engines.0.valid(
                <B::Digest as DigestConvert<D>>::spec_from_outer(parent_digest),
                header.spec_with_digest(
                    <B::Digest as DigestConvert<D>>::spec_from_outer(header.consensus_digest),
                ),
            )
        } else {
            self.engines.1.valid(
                <A::Digest as DigestConvert<D>>::spec_from_outer(parent_digest),
                header.spec_with_digest(
                    <A::Digest as DigestConvert<D>>::spec_from_outer(header.consensus_digest),
                ),
            )
        }
    }

    fn validate(&self, parent_digest: &D, header: &Header<D>) -> (r: bool) {
        if header.height < self.fork_height {
            let pd: B::Digest = <B::Digest as DigestConvert<D>>::from_outer(*parent_digest);
            let inner: Header<B::Digest> = header.convert_to_digest(
                <B::Digest as DigestConvert<D>>::from_outer(header.consensus_digest),
            );
            self.engines.0.validate(&pd, &inner)
        } else {
            let pd: A::Digest = <A::Digest as DigestConvert<D>>::from_outer(*parent_digest);
            let inner: Header<A::Digest> = header.convert_to_digest(
                <A::Digest as DigestConvert<D>>::from_outer(header.consensus_digest),
            );
            self.engines.1.validate(&pd, &inner)
        }
    }

    /// Seal with whichever engine governs the partial header's height, then
    /// carry the produced digest back to the outer representation.
    fn seal(&self, parent_digest: &D, partial_header: Header<()>) -> (r: Option<Header<D>>) {
        if partial_header.height < self.fork_height {
            let pd: B::Digest = <B::Digest as DigestConvert<D>>::from_outer(*parent_digest);
            match self.engines.0.seal(&pd, partial_header) {
                None => None,
                Some(s) => {
                    let out: Header<D> = s.convert_to_digest(s.consensus_digest.to_outer());
                    proof {
                        s.consensus_digest.lemma_roundtrip();
                        assert(out.spec_with_digest(
                            <B::Digest as DigestConvert<D>>::spec_from_outer(out.consensus_digest),
                        ) == s);
                    }
                    Some(out)
                },
            }
        } else {
            let pd: A::Digest = <A::Digest as DigestConvert<D>>::from_outer(*parent_digest);
            match self.engines.1.seal(&pd, partial_header) {
                None => None,
                Some(s) => {
                    let out: Header<D> = s.convert_to_digest(s.consensus_digest.to_outer());
                    proof {
                        s.consensus_digest.lemma_roundtrip();
                        assert(out.spec_with_digest(
                            <A::Digest as DigestConvert<D>>::spec_from_outer(out.consensus_digest),
                        ) == s);
                    }
                    Some(out)
                },
            }
        }
    }
}

/// Which rules judge a header of a forked engine depends only on its height:
/// below the fork height exactly the before-engine's verdict counts, from
/// the fork height on exactly the after-engine's, each transported through
/// the shared digest representation.
pub proof fn lemma_forked_dispatch<D: Copy, B, A>(
    engine: Forked<D, B, A>,
    parent_digest: D,
    header: Header<D>,
) where
    B: Consensus,
    A: Consensus,
    B::Digest: DigestConvert<D>,
    A::Digest: DigestConvert<D>,

    ensures
        header.height < engine.fork_height ==> (engine.valid(parent_digest, header)
            <==> engine.engines.0.valid(
            <B::Digest as DigestConvert<D>>::spec_from_outer(parent_digest),
            header.spec_with_digest(
                <B::Digest as DigestConvert<D>>::spec_from_outer(header.consensus_digest),
            ),
        )),
        header.height >= engine.fork_height ==> (engine.valid(parent_digest, header)
            <==> engine.engines.1.valid(
            <A::Digest as DigestConvert<D>>::spec_from_outer(parent_digest),
            header.spec_with_digest(
                <A::Digest as DigestConvert<D>>::spec_from_outer(header.consensus_digest),
            ),
        )),
{
}

/// A proof-of-authority engine that changes authorities part way through the
/// chain's history.
pub fn change_authorities(
    fork_height: u64,
    initial_authorities: Vec<ConsensusAuthority>,
    final_authorities: Vec<ConsensusAuthority>,
) -> (r: Forked<ConsensusAuthority, SimplePoa, SimplePoa>)
    ensures
        r.fork_height == fork_height,
        r.engines.0.authorities@ == initial_authorities@,
        r.engines.1.authorities@ == final_authorities@,
{
    let poa_before = SimplePoa { authorities: initial_authorities };
    let poa_after = SimplePoa { authorities: final_authorities };
    Forked { fork_height, digest: PhantomData, engines: (poa_before, poa_after) }
}

/// A proof-of-work engine that changes difficulty part way through the
/// chain's history.
pub fn change_difficulty(fork_height: u64, initial_difficulty: u64, final_difficulty: u64) -> (r:
    Forked<u64, PoW, PoW>)
    ensures
        r.fork_height == fork_height,
        r.engines.0.threshold == initial_difficulty,
        r.engines.1.threshold == final_difficulty,
{
    let pow_before = PoW { threshold: initial_difficulty };
    let pow_after = PoW { threshold: final_difficulty };
    Forked { fork_height, digest: PhantomData, engines: (pow_before, pow_after) }
}

/// Introduce the even-state-root requirement only from the given height on;
/// below it the original rules apply unchanged.  The same engine is
/// supplied twice — once to run before the fork, once to be wrapped after
/// it — so this works with proof of work, proof of authority, or anything
/// else.
pub fn even_after_given_height<Original: Consensus>(
    fork_height: u64,
    original: Original,
    original_again: Original,
) -> (r: Forked<Original::Digest, Original, EvenOnly<Original>>)
    ensures
        r.fork_height == fork_height,
        r.engines.0 == original,
        r.engines.1.0 == original_again,
{
    Forked { fork_height, digest: PhantomData, engines: (original, EvenOnly(original_again)) }
}

/// A digest able to hold either a proof-of-work nonce or an authority, for
/// forks whose two sides disagree on the digest shape.
#[derive(Clone, Copy, Debug, PartialEq, Eq, Structural, Hash)]
pub enum PowOrPoaDigest {
    Pow(u64),
    Poa(ConsensusAuthority),
}

impl DigestConvert<PowOrPoaDigest> for u64 {
    open spec fn spec_to_outer(self) -> PowOrPoaDigest {
        PowOrPoaDigest::Pow(self)
    }

    open spec fn spec_from_outer(o: PowOrPoaDigest) -> u64 {
        match o {
            PowOrPoaDigest::Pow(n) => n,
            PowOrPoaDigest::Poa(_) => 0,
        }
    }

    fn to_outer(self) -> PowOrPoaDigest {
        PowOrPoaDigest::Pow(self)
    }

    fn from_outer(o: PowOrPoaDigest) -> u64 {
        match o {
            PowOrPoaDigest::Pow(n) => n,
            PowOrPoaDigest::Poa(_) => 0,
        }
    }

    proof fn lemma_roundtrip(self) {
    }
}

impl DigestConvert<PowOrPoaDigest> for ConsensusAuthority {
    open spec fn spec_to_outer(self) -> PowOrPoaDigest {
        PowOrPoaDigest::Poa(self)
    }

    open spec fn spec_from_outer(o: PowOrPoaDigest) -> ConsensusAuthority {
        match o {
            PowOrPoaDigest::Pow(_) => ConsensusAuthority::Alice,
            PowOrPoaDigest::Poa(a) => a,
        }
    }

    fn to_outer(self) -> PowOrPoaDigest {
        PowOrPoaDigest::Poa(self)
    }

    fn from_outer(o: PowOrPoaDigest) -> ConsensusAuthority {
        match o {
            PowOrPoaDigest::Pow(_) => ConsensusAuthority::Alice,
            PowOrPoaDigest::Poa(a) => a,
        }
    }

    proof fn lemma_roundtrip(self) {
    }
}

/// A handoff from proof of work to proof of authority at the fork height,
/// the two sides' digests wrapped in one tagged union.
pub fn pow_to_poa(fork_height: u64, threshold: u64, authorities: Vec<ConsensusAuthority>) -> (r:
    Forked<PowOrPoaDigest, PoW, SimplePoa>)
    ensures
        r.fork_height == fork_height,
        r.engines.0.threshold == threshold,
        r.engines.1.authorities@ == authorities@,
{
    let cons_before = PoW { threshold };
    let cons_after = SimplePoa { authorities };
    Forked { fork_height, digest: PhantomData, engines: (cons_before, cons_after) }
}

} // verus!
