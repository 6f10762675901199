//! Fork choice: when forks arise, users need a rule that decides which of
//! several candidate chains is the best one for now.  There are several
//! meaningful notions of "best", so the rule is a trait with multiple
//! implementations.
//!
//! A rule compares two not-necessarily-related header chains (they need not
//! share a genesis), and candidate chains are assumed to be individually
//! valid already.

use vstd::prelude::*;
use vstd::slice::slice_index_get;
use crate::chain::{
    commit_header, spec_commit_header, spec_header_chain_ok, spec_with_digest, Header,
};

verus! {

/// The proof-of-work difficulty threshold against which per-header work is
/// measured: roughly 1 in 100 digests falls below it.
pub const THRESHOLD: u64 = u64::MAX / 100;

/// The views of a sequence of borrowed chains.
pub open spec fn chain_views(cs: Seq<&[Header]>) -> Seq<Seq<Header>> {
    Seq::new(cs.len(), |i: int| cs[i]@)
}

/// The chain a left-to-right fold of pairwise comparisons settles on: the
/// running best is kept whenever `better` says it beats the next candidate,
/// and replaced otherwise.
pub open spec fn spec_fold_best(
    better: spec_fn(Seq<Header>, Seq<Header>) -> bool,
    chains: Seq<Seq<Header>>,
) -> Seq<Header>
    decreases chains.len(),
{
    if chains.len() <= 1 {
        chains[0]
    } else {
        let prev = spec_fold_best(better, chains.drop_last());
        if better(prev, chains.last()) {
            prev
        } else {
            chains.last()
        }
    }
}

/// Judge which chain is "best" when there are multiple candidates.
pub trait ForkChoice: Sized {
    /// The rule's ordering: whether the first chain is to be preferred over
    /// the second.  Ties may go either way, depending on the rule.
    spec fn spec_better(c1: Seq<Header>, c2: Seq<Header>) -> bool;

    /// Compare two chains, and report whether the first is the better one.
    fn first_chain_is_better(chain_1: &[Header], chain_2: &[Header]) -> (r: bool)
        ensures
            r == Self::spec_better(chain_1@, chain_2@),
    ;

    /// Compare many chains and return the best one: the result of folding
    /// pairwise comparisons left to right over all candidates.  A rule may
    /// override this with an equivalent single-pass computation.
    fn best_chain<'a>(candidate_chains: &[&'a [Header]]) -> (r: &'a [Header])
        requires
            candidate_chains@.len() >= 1,
        ensures
            r@ == spec_fold_best(
                |c1: Seq<Header>, c2: Seq<Header>| Self::spec_better(c1, c2),
                chain_views(candidate_chains@),
            ),
    {
        let ghost better: spec_fn(Seq<Header>, Seq<Header>) -> bool =
            |c1: Seq<Header>, c2: Seq<Header>| Self::spec_better(c1, c2);
        let ghost vs = chain_views(candidate_chains@);
        let n = candidate_chains.len();
        let mut best: &'a [Header] = *slice_index_get(candidate_chains, 0);
        for i in 1..n
            invariant
                n == candidate_chains@.len(),
                vs == chain_views(candidate_chains@),
                better == (|c1: Seq<Header>, c2: Seq<Header>| Self::spec_better(c1, c2)),
                best@ == spec_fold_best(better, vs.take(i as int)),
        {
            let cand: &'a [Header] = *slice_index_get(candidate_chains, i);
            let keep = Self::first_chain_is_better(best, cand);
            proof {
                assert(vs.take(i + 1).drop_last() =~= vs.take(i as int));
                assert(vs.take(i + 1).last() == vs[i as int]);
            }
            if !keep {
                best = cand;
            }
        }
        proof {
            assert(vs.take(n as int) =~= vs);
        }
        best
    }
}

/// The "best" chain is simply the longest chain; ties favor the first.
pub struct LongestChainRule;

impl ForkChoice for LongestChainRule {
    open spec fn spec_better(c1: Seq<Header>, c2: Seq<Header>) -> bool {
        c1.len() >= c2.len()
    }

    fn first_chain_is_better(chain_1: &[Header], chain_2: &[Header]) -> (r: bool) {
        chain_1.len() >= chain_2.len()
    }

    /// Single-pass variant: track the first index of maximal length.
    fn best_chain<'a>(candidate_chains: &[&'a [Header]]) -> (r: &'a [Header]) {
        let ghost better: spec_fn(Seq<Header>, Seq<Header>) -> bool =
            |c1: Seq<Header>, c2: Seq<Header>| Self::spec_better(c1, c2);
        let ghost vs = chain_views(candidate_chains@);
        let n = candidate_chains.len();
        let mut best_length = slice_index_get(candidate_chains, 0).len();
        let mut best_index: usize = 0;
        for i in 1..n
            invariant
                n == candidate_chains@.len(),
                vs == chain_views(candidate_chains@),
                better == (|c1: Seq<Header>, c2: Seq<Header>| Self::spec_better(c1, c2)),
                best_index < i,
                best_length == vs[best_index as int].len(),
                vs[best_index as int] == spec_fold_best(better, vs.take(i as int)),
        {
            let cand_length = slice_index_get(candidate_chains, i).len();
            proof {
                assert(vs.take(i + 1).drop_last() =~= vs.take(i as int));
                assert(vs.take(i + 1).last() == vs[i as int]);
            }
            if cand_length > best_length {
                best_length = cand_length;
                best_index = i;
            }
        }
        proof {
            assert(vs.take(n as int) =~= vs);
        }
        *slice_index_get(candidate_chains, best_index)
    }
}

/// The work a single header embodies: how far below the difficulty threshold
/// its commitment lies.  A commitment above the threshold counts as no work.
pub open spec fn spec_work(h: Header) -> int {
    if spec_commit_header(h) <= THRESHOLD {
        THRESHOLD - spec_commit_header(h)
    } else {
        0
    }
}

/// Total work accumulated across a chain.
pub open spec fn spec_chain_work(c: Seq<Header>) -> int
    decreases c.len(),
{
    if c.len() == 0 {
        0
    } else {
        spec_chain_work(c.drop_last()) + spec_work(c.last())
    }
}

/// Total work accumulated across a chain.  The sum of fewer than `usize::MAX`
/// terms each below `2^64` fits in a `u128`.
pub fn chain_work(chain: &[Header]) -> (w: u128)
    ensures
        w as int == spec_chain_work(chain@),
{
    let mut weight: u128 = 0;
    let n = chain.len();
    for i in 0..n
        invariant
            n == chain@.len(),
            weight as int == spec_chain_work(chain@.take(i as int)),
            weight as int <= i * 0x0400_0000_0000_0000,
    {
        let c = commit_header(slice_index_get(chain, i));
        let work: u64 = if c <= THRESHOLD {
            THRESHOLD - c
        } else {
            0
        };
        assert(work <= 0x0400_0000_0000_0000);
        weight = weight + (work as u128);
        proof {
            assert(chain@.take(i + 1).drop_last() =~= chain@.take(i as int));
            assert(chain@.take(i + 1).last() == chain@[i as int]);
        }
    }
    proof {
        assert(chain@.take(n as int) =~= chain@);
    }
    weight
}

/// The best chain is the one with the most accumulated work, where a
/// header's work is `THRESHOLD` minus its commitment (and none when the
/// commitment exceeds the threshold); ties favor the first chain.
pub struct HeaviestChainRule;

impl ForkChoice for HeaviestChainRule {
    open spec fn spec_better(c1: Seq<Header>, c2: Seq<Header>) -> bool {
        spec_chain_work(c1) >= spec_chain_work(c2)
    }

    fn first_chain_is_better(chain_1: &[Header], chain_2: &[Header]) -> (r: bool) {
        let weight_1 = chain_work(chain_1);
        let weight_2 = chain_work(chain_2);
        weight_1 >= weight_2
    }
}

/// How many headers of the chain have an even commitment.
pub open spec fn spec_even_count(c: Seq<Header>) -> int
    decreases c.len(),
{
    if c.len() == 0 {
        0
    } else {
        spec_even_count(c.drop_last()) + if spec_commit_header(c.last()) % 2 == 0 {
            1int
        } else {
            0int
        }
    }
}

/// How many headers of the chain have an even commitment.
pub fn chain_even_count(chain: &[Header]) -> (n: usize)
    ensures
        n as int == spec_even_count(chain@),
{
    let mut count: usize = 0;
    let len = chain.len();
    for i in 0..len
        invariant
            len == chain@.len(),
            count as int == spec_even_count(chain@.take(i as int)),
            count <= i,
    {
        if commit_header(slice_index_get(chain, i)) % 2 == 0 {
            count = count + 1;
        }
        proof {
            assert(chain@.take(i + 1).drop_last() =~= chain@.take(i as int));
            assert(chain@.take(i + 1).last() == chain@[i as int]);
        }
    }
    proof {
        assert(chain@.take(len as int) =~= chain@);
    }
    count
}

/// The best chain is the one with strictly more headers whose commitment is
/// even; on a tie neither chain is better, so the fold moves on.
pub struct MostBlocksWithEvenHash;

impl ForkChoice for MostBlocksWithEvenHash {
    open spec fn spec_better(c1: Seq<Header>, c2: Seq<Header>) -> bool {
        spec_even_count(c1) > spec_even_count(c2)
    }

    fn first_chain_is_better(chain_1: &[Header], chain_2: &[Header]) -> (r: bool) {
        let count_1 = chain_even_count(chain_1);
        let count_2 = chain_even_count(chain_2);
        count_1 > count_2
    }
}

/// Mutate a header to contain more proof-of-work difficulty: advance its
/// digest until the commitment falls below `threshold`.  All other fields
/// are left untouched, so chain linkage is preserved.  If no digest at or
/// above the current one succeeds, the search stops at the largest digest.
pub fn mine_extra_hard(header: &mut Header, threshold: u64)
    ensures
        final(header).parent == old(header).parent,
        final(header).height == old(header).height,
        final(header).extrinsics_root == old(header).extrinsics_root,
        final(header).state == old(header).state,
        final(header).consensus_digest >= old(header).consensus_digest,
        forall|d: u64|
            old(header).consensus_digest <= d < final(header).consensus_digest
                ==> spec_commit_header(spec_with_digest(*old(header), d)) >= threshold,
        spec_commit_header(*final(header)) < threshold || (final(header).consensus_digest
            == u64::MAX && spec_commit_header(*final(header)) >= threshold),
{
    let ghost orig: Header = *header;
    loop
        invariant
            header.parent == orig.parent,
            header.height == orig.height,
            header.extrinsics_root == orig.extrinsics_root,
            header.state == orig.state,
            header.consensus_digest >= orig.consensus_digest,
            forall|d: u64|
                orig.consensus_digest <= d < header.consensus_digest
                    ==> spec_commit_header(spec_with_digest(orig, d)) >= threshold,
        ensures
            spec_commit_header(*header) < threshold || (header.consensus_digest == u64::MAX
                && spec_commit_header(*header) >= threshold),
        decreases u64::MAX - header.consensus_digest,
    {
        if commit_header(header) < threshold {
            break;
        }
        if header.consensus_digest == u64::MAX {
            break;
        }
        proof {
            assert(*header == spec_with_digest(orig, header.consensus_digest));
        }
        header.consensus_digest = header.consensus_digest + 1;
    }
}

/// Build and return a valid chain with the given number of headers, genesis
/// included; heights count up from zero.
pub fn build_valid_chain(n: u64) -> (r: Vec<Header>)
    ensures
        n <= usize::MAX ==> r@.len() == n,
        n > usize::MAX ==> r@.len() == 0,
        forall|j: int| 0 <= j < r@.len() ==> #[trigger] r@[j].height == j,
        r@.len() > 0 ==> r@[0] == Header::spec_genesis(),
        forall|j: int|
            1 <= j < r@.len() ==> #[trigger] r@[j] == Header::spec_child(
                r@[j - 1],
                j as u64,
                j as u64,
            ),
        r@.len() > 0 ==> spec_header_chain_ok(r@[0], r@.skip(1)),
{
    let mut headers: Vec<Header> = Vec::new();
    if n > usize::MAX as u64 {
        return headers;
    }
    let size = n as usize;
    if size == 0 {
        return headers;
    }
    headers.push(Header::genesis());
    for i in 1..size
        invariant
            headers@.len() == i,
            1 <= i <= size,
            size <= u64::MAX,
            headers@[0] == Header::spec_genesis(),
            forall|j: int| 0 <= j < i ==> #[trigger] headers@[j].height == j,
            forall|j: int| 1 <= j < i ==> spec_child_ok_at(headers@, j),
            forall|j: int|
                1 <= j < i ==> #[trigger] headers@[j] == Header::spec_child(
                    headers@[j - 1],
                    j as u64,
                    j as u64,
                ),
    {
        let prev = headers[i - 1];
        let next = prev.child(i as u64, i as u64);
        let ghost before = headers@;
        headers.push(next);
        proof {
            assert forall|j: int| 1 <= j < i + 1 implies spec_child_ok_at(headers@, j)
                && headers@[j] == Header::spec_child(headers@[j - 1], j as u64, j as u64) by {
                if j < i {
                    assert(spec_child_ok_at(before, j));
                    assert(before[j] == Header::spec_child(before[j - 1], j as u64, j as u64));
                    assert(headers@[j - 1] == before[j - 1]);
                    assert(headers@[j] == before[j]);
                } else {
                    assert(headers@[j - 1] == before[i - 1]);
                    assert(headers@[j] == next);
                }
            }
        }
    }
    proof {
        assert forall|k: int| 0 <= k < headers@.skip(1).len() implies crate::chain::spec_child_ok(
            if k == 0 {
                headers@[0]
            } else {
                headers@.skip(1)[k - 1]
            },
            #[trigger] headers@.skip(1)[k],
        ) by {
            assert(headers@.skip(1)[k] == headers@[k + 1]);
            if k > 0 {
                assert(headers@.skip(1)[k - 1] == headers@[k]);
            }
            assert(spec_child_ok_at(headers@, k + 1));
        }
    }
    headers
}

/// The pair at position `j` of the chain satisfies the linkage invariant.
pub open spec fn spec_child_ok_at(c: Seq<Header>, j: int) -> bool {
    crate::chain::spec_child_ok(c[j - 1], c[j])
}

/// Add a fork to a chain: a run of children of `pre`, starting with
/// `pre.child(0, 0)`, each later one optionally mined to carry extra work.
/// Mining touches only the digest, so the fork is a valid chain continuing
/// `pre`; when mining is asked for, every header after the first has its
/// commitment below `u64::MAX / 1000`, unless the whole digest space was
/// exhausted for it.
#[verifier::rlimit(50)]
pub fn add_fork(pre: &Header, length: u64, extra_work: bool) -> (r: Vec<Header>)
    requires
        1 <= length,
        length <= usize::MAX,
        pre.height + length <= u64::MAX,
    ensures
        r@.len() == length,
        r@[0] == Header::spec_child(*pre, 0, 0),
        spec_header_chain_ok(*pre, r@),
        forall|j: int| 0 <= j < r@.len() ==> #[trigger] r@[j].height == pre.height + 1 + j,
        extra_work ==> forall|j: int|
            1 <= j < r@.len() ==> spec_commit_header(#[trigger] r@[j]) < u64::MAX / 1000
                || r@[j].consensus_digest == u64::MAX,
{
    let mut fork: Vec<Header> = Vec::new();
    fork.push(pre.child(0, 0));
    let count = (length - 1) as usize;
    for i in 0..count
        invariant
            count == length - 1,
            fork@.len() == i + 1,
            i + 1 <= length,
            pre.height + length <= u64::MAX,
            fork@[0] == Header::spec_child(*pre, 0, 0),
            spec_header_chain_ok(*pre, fork@),
            forall|j: int|
                0 <= j < fork@.len() ==> #[trigger] fork@[j].height == pre.height + 1 + j,
            extra_work ==> forall|j: int|
                1 <= j < fork@.len() ==> spec_commit_header(#[trigger] fork@[j]) < u64::MAX / 1000
                    || fork@[j].consensus_digest == u64::MAX,
    {
        let last = fork[fork.len() - 1];
        let mut next = last.child(i as u64, i as u64);
        if extra_work {
            mine_extra_hard(&mut next, u64::MAX / 1000);
        }
        let ghost before = fork@;
        fork.push(next);
        proof {
            assert(crate::chain::spec_child_ok(last, next));
            assert forall|k: int| 0 <= k < fork@.len() implies crate::chain::spec_child_ok(
                if k == 0 {
                    *pre
                } else {
                    fork@[k - 1]
                },
                #[trigger] fork@[k],
            ) by {
                if k < before.len() {
                    assert(fork@[k] == before[k]);
                    if k > 0 {
                        assert(fork@[k - 1] == before[k - 1]);
                    }
                } else {
                    assert(fork@[k] == next);
                    assert(fork@[k - 1] == last);
                }
            }
            if extra_work {
                assert forall|k: int| 1 <= k < fork@.len() implies spec_commit_header(
                    #[trigger] fork@[k],
                ) < u64::MAX / 1000 || fork@[k].consensus_digest == u64::MAX by {
                    if k < before.len() {
                        assert(fork@[k] == before[k]);
                    } else {
                        assert(fork@[k] == next);
                    }
                }
            }
        }
    }
    fork
}

/// Build two different chains with a common prefix: both valid and starting
/// from the same two-header prefix, the first suffix longer, the second
/// mined hard — every mined header's commitment sits below `u64::MAX / 1000`
/// (or its digest space was exhausted), so in practice the shorter suffix
/// carries more accumulated work.  How the two totals actually compare
/// depends on the commitment values themselves, which no contract fixes.
pub fn create_fork_one_side_longer_other_side_heavier() -> (r: (
    Vec<Header>,
    Vec<Header>,
    Vec<Header>,
))
    ensures
        r.0@.len() == 2,
        r.1@.len() == 4,
        r.2@.len() == 3,
        r.0@[0] == Header::spec_genesis(),
        spec_header_chain_ok(r.0@[0], r.0@.skip(1)),
        spec_header_chain_ok(r.0@[1], r.1@),
        spec_header_chain_ok(r.0@[1], r.2@),
        r.1@[0] == Header::spec_child(r.0@[1], 0, 0),
        r.2@[0] == Header::spec_child(r.0@[1], 0, 0),
        forall|j: int|
            1 <= j < r.2@.len() ==> spec_commit_header(#[trigger] r.2@[j]) < u64::MAX / 1000
                || r.2@[j].consensus_digest == u64::MAX,
{
    let pre = build_valid_chain(2);
    let last = pre[1];
    let long = add_fork(&last, 4, false);
    let weighted = add_fork(&last, 3, true);
    (pre, long, weighted)
}

} // verus!
