//! The payoff engine: a pure mapping from an action pair and a stake to a
//! reward pair, under the fixed dilemma table. Mutual cooperation pays each
//! side 1.5x the stake, mutual defection pays each side 0.5x, and one-sided
//! defection hands the whole 2x escrow to the defector; the 1.5x and 0.5x
//! cases truncate toward zero.

use vstd::prelude::*;

verus! {

/// One side's choice in the two-choice dilemma.
#[derive(Clone, Copy, Debug, PartialEq, Eq, Structural)]
pub enum Action {
    Cooperate,
    Defect,
}

/// The reward owed to the first agent for an action pair and stake.
pub open spec fn spec_reward_a(action_a: Action, action_b: Action, stake: int) -> int {
    match (action_a, action_b) {
        (Action::Cooperate, Action::Cooperate) => stake * 3 / 2,
        (Action::Defect, Action::Defect) => stake / 2,
        (Action::Defect, Action::Cooperate) => stake * 2,
        (Action::Cooperate, Action::Defect) => 0,
    }
}

/// The reward owed to the second agent for an action pair and stake.
pub open spec fn spec_reward_b(action_a: Action, action_b: Action, stake: int) -> int {
    match (action_a, action_b) {
        (Action::Cooperate, Action::Cooperate) => stake * 3 / 2,
        (Action::Defect, Action::Defect) => stake / 2,
        (Action::Defect, Action::Cooperate) => 0,
        (Action::Cooperate, Action::Defect) => stake * 2,
    }
}

/// Whether the table's intermediate products for this action pair stay
/// within a `u64`, so that both rewards can be computed.
pub open spec fn payoff_fits(action_a: Action, action_b: Action, stake: int) -> bool {
    match (action_a, action_b) {
        (Action::Cooperate, Action::Cooperate) => stake * 3 <= u64::MAX,
        (Action::Defect, Action::Defect) => true,
        _ => stake * 2 <= u64::MAX,
    }
}

/// Computes both rewards for an action pair and stake, or nothing when an
/// intermediate product would wrap a `u64`.
pub fn compute_payoff(action_a: Action, action_b: Action, stake: u64) -> (r: Option<(u64, u64)>)
    ensures
        r is Some <==> payoff_fits(action_a, action_b, stake as int),
        r matches Some(p) ==> p.0 == spec_reward_a(action_a, action_b, stake as int),
        r matches Some(p) ==> p.1 == spec_reward_b(action_a, action_b, stake as int),
{
    match (action_a, action_b) {
        (Action::Cooperate, Action::Cooperate) => match stake.checked_mul(3) {
            Some(tripled) => Some((tripled / 2, tripled / 2)),
            None => None,
        },
        (Action::Defect, Action::Defect) => Some((stake / 2, stake / 2)),
        (Action::Defect, Action::Cooperate) => match stake.checked_mul(2) {
            Some(doubled) => Some((doubled, 0)),
            None => None,
        },
        (Action::Cooperate, Action::Defect) => match stake.checked_mul(2) {
            Some(doubled) => Some((0, doubled)),
            None => None,
        },
    }
}

/// How much of the 2x-stake escrow the table pays back out, for an even
/// stake: mutual cooperation pays out 3x the stake (value creation), mutual
/// defection pays out 1x (value destruction), and one-sided defection pays
/// out exactly the 2x escrow.
pub proof fn lemma_payoff_totals(action_a: Action, action_b: Action, stake: int)
    requires
        stake >= 0,
        stake % 2 == 0,
    ensures
        action_a == action_b && action_a is Cooperate ==> spec_reward_a(action_a, action_b, stake)
            + spec_reward_b(action_a, action_b, stake) == 3 * stake,
        action_a == action_b && action_a is Defect ==> spec_reward_a(action_a, action_b, stake)
            + spec_reward_b(action_a, action_b, stake) == stake,
        action_a != action_b ==> spec_reward_a(action_a, action_b, stake) + spec_reward_b(
            action_a,
            action_b,
            stake,
        ) == 2 * stake,
{
}

} // verus!
