//! The trust graph: directed, weighted edges between agents. A score lives
//! in [0, 1] and is held in fixed point with four decimal places, so the
//! whole unit interval is the integer range [0, 10000]. Each update nudges
//! the score by a fixed step and clamps it to the interval, and accumulates
//! the stake that backed the interaction.

use crate::errors::AEZError;
use vstd::prelude::*;

verus! {

/// One unit of trust (1.0) in fixed point: scores range over [0, TRUST_SCALE].
pub const TRUST_SCALE: u32 = 10000;

/// The neutral score (0.5) a fresh edge starts from.
pub const TRUST_NEUTRAL: u32 = 5000;

/// How much a score rises (0.1) when both sides cooperated.
pub const TRUST_REWARD: u32 = 1000;

/// How much a score falls (0.2) when the counterpart betrayed.
pub const TRUST_PENALTY: u32 = 2000;

/// A directed trust relationship from one agent toward another.
#[derive(Clone, Copy, Debug, PartialEq, Eq)]
pub struct TrustEdge {
    pub from: u64,
    pub to: u64,
    /// Fixed-point score in [0, TRUST_SCALE].
    pub trust_score: u32,
    /// Accumulated stakes behind the edge's interactions.
    pub total_stake_committed: u64,
    /// Number of interactions recorded on the edge.
    pub interaction_count: u32,
    /// When the edge was last updated.
    pub last_updated: i64,
}

/// A well-formed edge keeps its score inside the unit interval.
pub open spec fn edge_wf(edge: TrustEdge) -> bool {
    edge.trust_score <= TRUST_SCALE
}

/// A score after one update: up by the fixed reward and capped at one when
/// both cooperated, down by the fixed penalty and floored at zero on a
/// betrayal, unchanged otherwise.
pub open spec fn updated_score(score: u32, both_cooperated: bool, betrayed: bool) -> u32 {
    if both_cooperated {
        if score + TRUST_REWARD >= TRUST_SCALE {
            TRUST_SCALE
        } else {
            (score + TRUST_REWARD) as u32
        }
    } else if betrayed {
        if score >= TRUST_PENALTY {
            (score - TRUST_PENALTY) as u32
        } else {
            0
        }
    } else {
        score
    }
}

/// A score never leaves the unit interval under an update, so under any
/// sequence of updates a score that starts inside (every edge starts at the
/// neutral score) stays inside.
pub proof fn lemma_trust_score_bounded(score: u32, both_cooperated: bool, betrayed: bool)
    requires
        score <= TRUST_SCALE,
    ensures
        updated_score(score, both_cooperated, betrayed) <= TRUST_SCALE,
{
}

/// The score an update reads: a fresh edge (no interactions yet) reads the
/// neutral score, an established edge reads its stored score.
pub open spec fn base_score(edge: TrustEdge) -> u32 {
    if edge.interaction_count == 0 {
        TRUST_NEUTRAL
    } else {
        edge.trust_score
    }
}

/// The stake history an update reads: zero for a fresh edge.
pub open spec fn base_stake(edge: TrustEdge) -> u64 {
    if edge.interaction_count == 0 {
        0
    } else {
        edge.total_stake_committed
    }
}

/// Why an edge update is rejected, or nothing when it must succeed.
pub open spec fn update_error(edge: TrustEdge, stake: u64) -> Option<AEZError> {
    if base_stake(edge) + stake > u64::MAX {
        Some(AEZError::StakeOverflow)
    } else if edge.interaction_count == u32::MAX {
        Some(AEZError::CounterOverflow)
    } else {
        None
    }
}

/// Updates (or lazily creates) the directed trust edge for an ordered agent
/// pair after a resolved interaction. A fresh edge starts at the neutral
/// score with empty history; the outcome flags move the score within the
/// unit interval; the stake history accumulates and the interaction is
/// counted, both overflow-checked. On any failure the edge is unchanged.
pub fn update_trust_edge(
    edge: &mut TrustEdge,
    from_key: u64,
    to_key: u64,
    both_cooperated: bool,
    betrayed: bool,
    stake: u64,
    now: i64,
) -> (r: Result<(), AEZError>)
    ensures
        r is Err <==> update_error(*old(edge), stake) is Some,
        r matches Err(e) ==> Some(e) == update_error(*old(edge), stake) && *final(edge) == *old(
            edge,
        ),
        r is Ok ==> *final(edge) == (TrustEdge {
            from: if old(edge).interaction_count == 0 {
                from_key
            } else {
                old(edge).from
            },
            to: if old(edge).interaction_count == 0 {
                to_key
            } else {
                old(edge).to
            },
            trust_score: updated_score(base_score(*old(edge)), both_cooperated, betrayed),
            total_stake_committed: (base_stake(*old(edge)) + stake) as u64,
            interaction_count: (old(edge).interaction_count + 1) as u32,
            last_updated: now,
        }),
        // the stake history of an established edge never decreases
        r is Ok && old(edge).interaction_count > 0 ==> final(edge).total_stake_committed >= old(
            edge,
        ).total_stake_committed,
        // the score never leaves the unit interval: a fresh edge starts
        // inside it, and an edge that was inside stays inside
        r is Ok && (old(edge).interaction_count == 0 || edge_wf(*old(edge))) ==> edge_wf(
            *final(edge),
        ),
{
    let fresh = edge.interaction_count == 0;
    let score = if fresh {
        TRUST_NEUTRAL
    } else {
        edge.trust_score
    };
    let stake_history = if fresh {
        0
    } else {
        edge.total_stake_committed
    };
    let new_stake_history = match stake_history.checked_add(stake) {
        Some(total) => total,
        None => {
            return Err(AEZError::StakeOverflow);
        },
    };
    if edge.interaction_count == u32::MAX {
        return Err(AEZError::CounterOverflow);
    }
    let new_score = if both_cooperated {
        if score >= TRUST_SCALE - TRUST_REWARD {
            TRUST_SCALE
        } else {
            score + TRUST_REWARD
        }
    } else if betrayed {
        if score >= TRUST_PENALTY {
            score - TRUST_PENALTY
        } else {
            0
        }
    } else {
        score
    };
    if fresh {
        edge.from = from_key;
        edge.to = to_key;
    }
    edge.trust_score = new_score;
    edge.total_stake_committed = new_stake_history;
    edge.interaction_count = edge.interaction_count + 1;
    edge.last_updated = now;
    Ok(())
}

} // verus!
