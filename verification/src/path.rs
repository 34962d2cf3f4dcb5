//! Transitive trust-path discovery: composes an existing chain of direct
//! trust edges into a synthesized edge from the first node to the last. The
//! scores along the chain are multiplied together and an exponential
//! per-hop decay is applied, all in the same fixed-point scale as the trust
//! graph, truncating at each step. The synthesized edge carries zero stake
//! history and zero interactions, marking it as inferred rather than
//! observed.

use crate::errors::AEZError;
use crate::trust::TRUST_SCALE;
use crate::trust::TrustEdge;
use vstd::arithmetic::div_mod::lemma_div_is_ordered;
use vstd::arithmetic::div_mod::lemma_div_pos_is_pos;
use vstd::arithmetic::mul::lemma_mul_nonnegative;
use vstd::arithmetic::mul::lemma_mul_upper_bound;
use vstd::prelude::*;

verus! {

/// The per-hop decay factor (0.9) modeling compounding uncertainty over
/// indirect chains.
pub const TRUST_DECAY: u32 = 9000;

/// The scores carried by a chain of edges, in order.
pub open spec fn edge_scores(edges: Seq<TrustEdge>) -> Seq<u32> {
    edges.map_values(|edge: TrustEdge| edge.trust_score)
}

/// Trust composed along a chain of scores, left to right, starting from
/// one: each step multiplies in the next score and truncates back to the
/// fixed-point scale.
pub open spec fn chained_trust(scores: Seq<u32>) -> int
    decreases scores.len(),
{
    if scores.len() == 0 {
        TRUST_SCALE as int
    } else {
        chained_trust(scores.drop_last()) * scores.last() / (TRUST_SCALE as int)
    }
}

/// Trust after the per-hop decay has been applied the given number of
/// times, truncating at each step.
pub open spec fn decayed_trust(trust: int, hops: nat) -> int
    decreases hops,
{
    if hops == 0 {
        trust
    } else {
        decayed_trust(trust, (hops - 1) as nat) * (TRUST_DECAY as int) / (TRUST_SCALE as int)
    }
}

/// The trust score a path synthesizes: the composed scores of its edges,
/// decayed once per hop.
pub open spec fn path_trust(scores: Seq<u32>) -> int {
    decayed_trust(chained_trust(scores), scores.len())
}

/// Composed trust never leaves the unit interval when every score along the
/// chain is inside it.
pub proof fn lemma_chained_trust_bounded(scores: Seq<u32>)
    requires
        forall|i: int| 0 <= i < scores.len() ==> scores[i] <= TRUST_SCALE,
    ensures
        0 <= chained_trust(scores) <= TRUST_SCALE,
    decreases scores.len(),
{
    if scores.len() > 0 {
        assert(forall|i: int|
            0 <= i < scores.drop_last().len() ==> scores.drop_last()[i] == scores[i]);
        lemma_chained_trust_bounded(scores.drop_last());
        let t = chained_trust(scores.drop_last());
        let s = scores.last() as int;
        lemma_mul_nonnegative(t, s);
        lemma_mul_upper_bound(t, TRUST_SCALE as int, s, TRUST_SCALE as int);
        lemma_div_pos_is_pos(t * s, TRUST_SCALE as int);
        lemma_div_is_ordered(t * s, (TRUST_SCALE as int) * (TRUST_SCALE as int), TRUST_SCALE as int);
    }
}

/// Decay never pushes trust out of the unit interval.
pub proof fn lemma_decayed_trust_bounded(trust: int, hops: nat)
    requires
        0 <= trust <= TRUST_SCALE,
    ensures
        0 <= decayed_trust(trust, hops) <= TRUST_SCALE,
    decreases hops,
{
    if hops > 0 {
        lemma_decayed_trust_bounded(trust, (hops - 1) as nat);
        let t = decayed_trust(trust, (hops - 1) as nat);
        lemma_mul_nonnegative(t, TRUST_DECAY as int);
        lemma_mul_upper_bound(t, TRUST_SCALE as int, TRUST_DECAY as int, TRUST_DECAY as int);
        lemma_div_pos_is_pos(t * (TRUST_DECAY as int), TRUST_SCALE as int);
        lemma_div_is_ordered(
            t * (TRUST_DECAY as int),
            (TRUST_SCALE as int) * (TRUST_DECAY as int),
            TRUST_SCALE as int,
        );
    }
}

/// Whether some node appears twice in the path.
pub open spec fn has_repeated_node(keys: Seq<u64>) -> bool {
    exists|i: int, j: int| 0 <= i < j < keys.len() && keys[i] == keys[j]
}

/// Why a discovery attempt is rejected, or nothing when it must succeed.
pub open spec fn discover_error(path_keys: Seq<u64>, edge_count: int) -> Option<AEZError> {
    if path_keys.len() < 2 {
        Some(AEZError::PathTooShort)
    } else if path_keys.len() > 5 {
        Some(AEZError::PathTooLong)
    } else if has_repeated_node(path_keys) {
        Some(AEZError::CircularPath)
    } else if edge_count != path_keys.len() - 1 {
        Some(AEZError::InvalidPathLength)
    } else {
        None
    }
}

/// Synthesizes a transitive trust edge from the first node of a path to its
/// last. The path must have two to five pairwise-distinct nodes and exactly
/// one edge per hop; the result multiplies the edge scores and applies the
/// per-hop decay, and carries zero stake history and zero interactions. The
/// caller is responsible for the edge list actually connecting the nodes in
/// order; that correspondence is not checked here.
pub fn discover_via_path(path_keys: &Vec<u64>, edges: &Vec<TrustEdge>, now: i64) -> (r: Result<
    TrustEdge,
    AEZError,
>)
    requires
        forall|i: int| 0 <= i < edges@.len() ==> edges@[i].trust_score <= TRUST_SCALE,
    ensures
        r is Err <==> discover_error(path_keys@, edges@.len() as int) is Some,
        r matches Err(e) ==> Some(e) == discover_error(path_keys@, edges@.len() as int),
        r matches Ok(edge) ==> edge == (TrustEdge {
            from: path_keys@[0],
            to: path_keys@.last(),
            trust_score: path_trust(edge_scores(edges@)) as u32,
            total_stake_committed: 0,
            interaction_count: 0,
            last_updated: now,
        }),
        r is Ok ==> 0 <= path_trust(edge_scores(edges@)) <= TRUST_SCALE,
        // a synthesized edge is well-formed like any observed edge
        r matches Ok(edge) ==> crate::trust::edge_wf(edge),
{
    let node_count = path_keys.len();
    if node_count < 2 {
        return Err(AEZError::PathTooShort);
    }
    if node_count > 5 {
        return Err(AEZError::PathTooLong);
    }
    let mut k: usize = 1;
    while k < node_count
        invariant
            1 <= k <= node_count,
            2 <= node_count <= 5,
            node_count == path_keys@.len(),
            forall|i: int, j: int| 0 <= i < j < k ==> path_keys@[i] != path_keys@[j],
        decreases node_count - k,
    {
        let mut j: usize = 0;
        while j < k
            invariant
                j <= k < node_count,
                2 <= node_count <= 5,
                node_count == path_keys@.len(),
                forall|i: int, j2: int| 0 <= i < j2 < k ==> path_keys@[i] != path_keys@[j2],
                forall|i: int| 0 <= i < j ==> path_keys@[i] != path_keys@[k as int],
            decreases k - j,
        {
            if path_keys[j] == path_keys[k] {
                proof {
                    assert(has_repeated_node(path_keys@)) by {
                        assert(0 <= j < k < path_keys@.len());
                        assert(path_keys@[j as int] == path_keys@[k as int]);
                    }
                }
                return Err(AEZError::CircularPath);
            }
            j = j + 1;
        }
        k = k + 1;
    }
    if edges.len() != node_count - 1 {
        return Err(AEZError::InvalidPathLength);
    }
    let ghost scores = edge_scores(edges@);
    let hop_count = edges.len();
    let mut trust: u32 = TRUST_SCALE;
    let mut i: usize = 0;
    proof {
        assert(scores.take(0) =~= Seq::<u32>::empty());
    }
    while i < hop_count
        invariant
            i <= hop_count,
            hop_count == edges@.len(),
            scores == edge_scores(edges@),
            forall|x: int| 0 <= x < edges@.len() ==> edges@[x].trust_score <= TRUST_SCALE,
            trust == chained_trust(scores.take(i as int)),
            trust <= TRUST_SCALE,
        decreases hop_count - i,
    {
        let score = edges[i].trust_score;
        proof {
            assert(scores.take(i + 1).drop_last() =~= scores.take(i as int));
            assert(scores.take(i + 1).last() == score);
            lemma_mul_nonnegative(trust as int, score as int);
            lemma_mul_upper_bound(trust as int, TRUST_SCALE as int, score as int, TRUST_SCALE as int);
            lemma_div_pos_is_pos((trust as int) * (score as int), TRUST_SCALE as int);
            lemma_div_is_ordered(
                (trust as int) * (score as int),
                (TRUST_SCALE as int) * (TRUST_SCALE as int),
                TRUST_SCALE as int,
            );
        }
        trust = (trust * score) / TRUST_SCALE;
        i = i + 1;
    }
    proof {
        assert(scores.take(hop_count as int) =~= scores);
    }
    let ghost chain = chained_trust(scores);
    let mut hop: usize = 0;
    while hop < hop_count
        invariant
            hop <= hop_count,
            trust == decayed_trust(chain, hop as nat),
            trust <= TRUST_SCALE,
        decreases hop_count - hop,
    {
        proof {
            lemma_mul_nonnegative(trust as int, TRUST_DECAY as int);
            lemma_mul_upper_bound(trust as int, TRUST_SCALE as int, TRUST_DECAY as int, TRUST_DECAY as int);
            lemma_div_pos_is_pos((trust as int) * (TRUST_DECAY as int), TRUST_SCALE as int);
            lemma_div_is_ordered(
                (trust as int) * (TRUST_DECAY as int),
                (TRUST_SCALE as int) * (TRUST_DECAY as int),
                TRUST_SCALE as int,
            );
        }
        trust = (trust * TRUST_DECAY) / TRUST_SCALE;
        hop = hop + 1;
    }
    proof {
        assert(scores.len() == hop_count as int);
        assert(trust == path_trust(scores));
    }
    Ok(
        TrustEdge {
            from: path_keys[0],
            to: path_keys[node_count - 1],
            trust_score: trust,
            total_stake_committed: 0,
            interaction_count: 0,
            last_updated: now,
        },
    )
}

} // verus!
