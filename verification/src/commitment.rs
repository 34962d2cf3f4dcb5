//! The commitment state machine: the lifecycle of a single pairwise wager.
//! A commitment is created between two live agents (escrowing the stake from
//! both), each side submits a commit hash, each side reveals its action
//! against that hash, and resolution settles rewards exactly once. Every
//! operation either fully completes or fails with a specific error leaving
//! all state untouched.

use crate::agents::Agent;
use crate::errors::AEZError;
use crate::hashing::bytes32_eq;
use crate::hashing::spec_commit_hash;
use crate::payoff::Action;
use crate::payoff::compute_payoff;
use crate::payoff::payoff_fits;
use crate::payoff::spec_reward_a;
use crate::payoff::spec_reward_b;
use vstd::prelude::*;

verus! {

/// The least stake a commitment may escrow from each side.
pub const MIN_STAKE: u64 = 10000;

/// One side's progress through the commit-reveal protocol. A side that has
/// not committed holds no hash, and "revealed without having committed" is
/// unrepresentable.
#[derive(Clone, Copy, Debug, PartialEq, Eq)]
pub enum SideState {
    NotCommitted,
    Committed([u8; 32]),
    Revealed(Action),
}

/// The monotonic sequence counter from which commitment identifiers are
/// allocated.
#[derive(Clone, Copy, Debug, PartialEq, Eq)]
pub struct CommitmentCounter {
    pub count: u64,
}

/// A pairwise wager between two agents under the commit-reveal protocol.
#[derive(Clone, Copy, Debug, PartialEq, Eq)]
pub struct Commitment {
    pub agent_a: u64,
    pub agent_b: u64,
    pub compute_stake: u64,
    pub side_a: SideState,
    pub side_b: SideState,
    pub resolved: bool,
    pub sequence: u64,
    pub created_at: i64,
}

/// The state of the claimed side of a commitment.
pub open spec fn side_of(c: Commitment, is_agent_a: bool) -> SideState {
    if is_agent_a {
        c.side_a
    } else {
        c.side_b
    }
}

/// The agent identifier that occupies the claimed side of a commitment.
pub open spec fn key_of(c: Commitment, is_agent_a: bool) -> u64 {
    if is_agent_a {
        c.agent_a
    } else {
        c.agent_b
    }
}

/// The commitment with the claimed side replaced and all else unchanged.
pub open spec fn with_side(c: Commitment, is_agent_a: bool, side: SideState) -> Commitment {
    if is_agent_a {
        Commitment { side_a: side, ..c }
    } else {
        Commitment { side_b: side, ..c }
    }
}

/// The action a revealed side holds.
pub open spec fn revealed_action(side: SideState) -> Action
    recommends
        side is Revealed,
{
    side->Revealed_0
}

/// The hash a committed side holds.
pub open spec fn committed_hash(side: SideState) -> Seq<u8>
    recommends
        side is Committed,
{
    side->Committed_0@
}

/// Creates the global sequence counter at zero.
pub fn initialize_counter() -> (counter: CommitmentCounter)
    ensures
        counter.count == 0,
{
    CommitmentCounter { count: 0 }
}

/// Why a creation attempt is rejected, or nothing when it must succeed.
pub open spec fn create_error(
    agent_a: Agent,
    agent_b: Agent,
    counter: CommitmentCounter,
    compute_stake: u64,
) -> Option<AEZError> {
    if !agent_a.alive {
        Some(AEZError::AgentAlreadyDead)
    } else if !agent_b.alive {
        Some(AEZError::AgentAlreadyDead)
    } else if agent_a.compute_balance < compute_stake {
        Some(AEZError::InsufficientCompute)
    } else if agent_b.compute_balance < compute_stake {
        Some(AEZError::InsufficientCompute)
    } else if compute_stake < MIN_STAKE {
        Some(AEZError::StakeTooSmall)
    } else if counter.count == u64::MAX {
        Some(AEZError::CounterOverflow)
    } else {
        None
    }
}

/// Creates a commitment between two live agents, debiting the stake from
/// each side and allocating a fresh sequence number from the counter. On any
/// failure no state is mutated.
pub fn create_commitment(
    agent_a: &mut Agent,
    agent_b: &mut Agent,
    agent_a_key: u64,
    agent_b_key: u64,
    counter: &mut CommitmentCounter,
    compute_stake: u64,
    now: i64,
) -> (r: Result<Commitment, AEZError>)
    ensures
        r is Err <==> create_error(*old(agent_a), *old(agent_b), *old(counter), compute_stake)
            is Some,
        r matches Err(e) ==> Some(e) == create_error(
            *old(agent_a),
            *old(agent_b),
            *old(counter),
            compute_stake,
        ) && *final(agent_a) == *old(agent_a) && *final(agent_b) == *old(agent_b)
            && *final(counter) == *old(counter),
        r is Ok ==> *final(agent_a) == (Agent {
            compute_balance: (old(agent_a).compute_balance - compute_stake) as u64,
            ..*old(agent_a)
        }),
        r is Ok ==> *final(agent_b) == (Agent {
            compute_balance: (old(agent_b).compute_balance - compute_stake) as u64,
            ..*old(agent_b)
        }),
        // each side is debited exactly the stake, so the escrowed total is twice the stake
        r is Ok ==> old(agent_a).compute_balance - final(agent_a).compute_balance == compute_stake
            && old(agent_b).compute_balance - final(agent_b).compute_balance == compute_stake && (
        old(agent_a).compute_balance + old(agent_b).compute_balance) - (
        final(agent_a).compute_balance + final(agent_b).compute_balance) == 2 * compute_stake,
        r is Ok ==> *final(counter) == (CommitmentCounter {
            count: (old(counter).count + 1) as u64,
        }),
        r matches Ok(c) ==> c == (Commitment {
            agent_a: agent_a_key,
            agent_b: agent_b_key,
            compute_stake,
            side_a: SideState::NotCommitted,
            side_b: SideState::NotCommitted,
            resolved: false,
            sequence: old(counter).count,
            created_at: now,
        }),
{
    if !agent_a.alive {
        return Err(AEZError::AgentAlreadyDead);
    }
    if !agent_b.alive {
        return Err(AEZError::AgentAlreadyDead);
    }
    if agent_a.compute_balance < compute_stake {
        return Err(AEZError::InsufficientCompute);
    }
    if agent_b.compute_balance < compute_stake {
        return Err(AEZError::InsufficientCompute);
    }
    if compute_stake < MIN_STAKE {
        return Err(AEZError::StakeTooSmall);
    }
    if counter.count == u64::MAX {
        return Err(AEZError::CounterOverflow);
    }
    let commitment = Commitment {
        agent_a: agent_a_key,
        agent_b: agent_b_key,
        compute_stake,
        side_a: SideState::NotCommitted,
        side_b: SideState::NotCommitted,
        resolved: false,
        sequence: counter.count,
        created_at: now,
    };
    counter.count = counter.count + 1;
    agent_a.compute_balance = agent_a.compute_balance - compute_stake;
    agent_b.compute_balance = agent_b.compute_balance - compute_stake;
    Ok(commitment)
}

/// Why a commit-hash submission is rejected, or nothing when it must
/// succeed.
pub open spec fn submit_error(
    c: Commitment,
    agent: Agent,
    agent_key: u64,
    authority: u64,
    is_agent_a: bool,
) -> Option<AEZError> {
    if c.resolved {
        Some(AEZError::CommitmentAlreadyResolved)
    } else if !(side_of(c, is_agent_a) is NotCommitted) {
        Some(AEZError::AlreadyCommitted)
    } else if authority != agent.authority {
        Some(AEZError::Unauthorized)
    } else if agent_key != key_of(c, is_agent_a) {
        Some(AEZError::WrongAgent)
    } else {
        None
    }
}

/// Stores a side's commit hash. The commitment must be open, the side must
/// not have committed yet, and the caller must control the agent that
/// occupies the claimed side. On any failure the commitment is unchanged.
pub fn submit_action(
    commitment: &mut Commitment,
    agent: &Agent,
    agent_key: u64,
    authority: u64,
    commit_hash: [u8; 32],
    is_agent_a: bool,
) -> (r: Result<(), AEZError>)
    ensures
        r is Ok <==> submit_error(*old(commitment), *agent, agent_key, authority, is_agent_a)
            is None,
        r matches Err(e) ==> Some(e) == submit_error(
            *old(commitment),
            *agent,
            agent_key,
            authority,
            is_agent_a,
        ) && *final(commitment) == *old(commitment),
        r is Ok ==> *final(commitment) == with_side(
            *old(commitment),
            is_agent_a,
            SideState::Committed(commit_hash),
        ),
{
    if commitment.resolved {
        return Err(AEZError::CommitmentAlreadyResolved);
    }
    let already = if is_agent_a {
        !matches!(commitment.side_a, SideState::NotCommitted)
    } else {
        !matches!(commitment.side_b, SideState::NotCommitted)
    };
    if already {
        return Err(AEZError::AlreadyCommitted);
    }
    if authority != agent.authority {
        return Err(AEZError::Unauthorized);
    }
    let expected_key = if is_agent_a {
        commitment.agent_a
    } else {
        commitment.agent_b
    };
    if agent_key != expected_key {
        return Err(AEZError::WrongAgent);
    }
    if is_agent_a {
        commitment.side_a = SideState::Committed(commit_hash);
    } else {
        commitment.side_b = SideState::Committed(commit_hash);
    }
    Ok(())
}

/// Why a reveal attempt is rejected, or nothing when it must succeed: a
/// reveal succeeds exactly when the commitment is open, the side holds a
/// commit hash, the caller controls the right agent, and the action and
/// nonce hash to the stored commitment.
pub open spec fn reveal_error(
    c: Commitment,
    agent: Agent,
    agent_key: u64,
    authority: u64,
    action: Action,
    nonce: Seq<u8>,
    is_agent_a: bool,
) -> Option<AEZError> {
    if c.resolved {
        Some(AEZError::CommitmentAlreadyResolved)
    } else if !(side_of(c, is_agent_a) is Committed) {
        Some(AEZError::NotCommitted)
    } else if authority != agent.authority {
        Some(AEZError::Unauthorized)
    } else if agent_key != key_of(c, is_agent_a) {
        Some(AEZError::WrongAgent)
    } else if spec_commit_hash(action, nonce) != committed_hash(side_of(c, is_agent_a)) {
        Some(AEZError::HashMismatch)
    } else {
        None
    }
}

/// Reveals a side's action by checking it, together with the nonce, against
/// the stored commit hash. On any failure the commitment is unchanged.
pub fn reveal_action(
    commitment: &mut Commitment,
    agent: &Agent,
    agent_key: u64,
    authority: u64,
    action: Action,
    nonce: &[u8; 32],
    is_agent_a: bool,
) -> (r: Result<(), AEZError>)
    ensures
        r is Ok <==> reveal_error(
            *old(commitment),
            *agent,
            agent_key,
            authority,
            action,
            nonce@,
            is_agent_a,
        ) is None,
        r matches Err(e) ==> Some(e) == reveal_error(
            *old(commitment),
            *agent,
            agent_key,
            authority,
            action,
            nonce@,
            is_agent_a,
        ) && *final(commitment) == *old(commitment),
        r is Ok ==> *final(commitment) == with_side(
            *old(commitment),
            is_agent_a,
            SideState::Revealed(action),
        ),
{
    if commitment.resolved {
        return Err(AEZError::CommitmentAlreadyResolved);
    }
    let stored: [u8; 32] = if is_agent_a {
        match commitment.side_a {
            SideState::Committed(h) => h,
            _ => {
                return Err(AEZError::NotCommitted);
            },
        }
    } else {
        match commitment.side_b {
            SideState::Committed(h) => h,
            _ => {
                return Err(AEZError::NotCommitted);
            },
        }
    };
    if authority != agent.authority {
        return Err(AEZError::Unauthorized);
    }
    let expected_key = if is_agent_a {
        commitment.agent_a
    } else {
        commitment.agent_b
    };
    if agent_key != expected_key {
        return Err(AEZError::WrongAgent);
    }
    let computed = crate::hashing::commit_hash(action, nonce);
    if !bytes32_eq(&computed, &stored) {
        return Err(AEZError::HashMismatch);
    }
    if is_agent_a {
        commitment.side_a = SideState::Revealed(action);
    } else {
        commitment.side_b = SideState::Revealed(action);
    }
    Ok(())
}

/// A balance read back as a signed fitness score, two's-complement style: a
/// balance above the signed range wraps around to a negative score.
pub open spec fn fitness_of(balance: u64) -> i64 {
    if balance <= i64::MAX {
        balance as i64
    } else {
        (balance - 0x10000000000000000) as i64
    }
}

/// Computes the fitness score a balance reads back as.
fn fitness_value(balance: u64) -> (score: i64)
    ensures
        score == fitness_of(balance),
{
    if balance <= i64::MAX as u64 {
        balance as i64
    } else {
        let distance = u64::MAX - balance;
        proof {
            assert(-0x8000000000000000 <= balance - 0x10000000000000000 < 0);
            assert(balance - 0x10000000000000000 == -(distance as int) - 1);
        }
        -(distance as i64) - 1
    }
}

/// An agent after resolution credits its reward: the balance grows by the
/// reward, the interaction counter and the counter of the agent's own action
/// each rise by one, and the fitness score is set to the new balance.
pub open spec fn settled_agent(agent: Agent, action: Action, reward: u64) -> Agent {
    Agent {
        compute_balance: (agent.compute_balance + reward) as u64,
        fitness_score: fitness_of((agent.compute_balance + reward) as u64),
        interactions: (agent.interactions + 1) as u32,
        cooperations: if action is Cooperate {
            (agent.cooperations + 1) as u32
        } else {
            agent.cooperations
        },
        defections: if action is Defect {
            (agent.defections + 1) as u32
        } else {
            agent.defections
        },
        ..agent
    }
}

/// Why a resolution attempt is rejected, or nothing when it must succeed.
pub open spec fn resolve_error(c: Commitment, agent_a: Agent, agent_b: Agent) -> Option<AEZError> {
    if c.resolved {
        Some(AEZError::CommitmentAlreadyResolved)
    } else if !(c.side_a is Revealed) {
        Some(AEZError::ActionNotRevealed)
    } else if !(c.side_b is Revealed) {
        Some(AEZError::ActionNotRevealed)
    } else {
        let action_a = revealed_action(c.side_a);
        let action_b = revealed_action(c.side_b);
        let stake = c.compute_stake as int;
        if !payoff_fits(action_a, action_b, stake) {
            Some(AEZError::ComputeOverflow)
        } else if agent_a.compute_balance + spec_reward_a(action_a, action_b, stake) > u64::MAX {
            Some(AEZError::ComputeOverflow)
        } else if agent_b.compute_balance + spec_reward_b(action_a, action_b, stake) > u64::MAX {
            Some(AEZError::ComputeOverflow)
        } else if agent_a.interactions == u32::MAX {
            Some(AEZError::CounterOverflow)
        } else if agent_b.interactions == u32::MAX {
            Some(AEZError::CounterOverflow)
        } else if (action_a is Cooperate && agent_a.cooperations == u32::MAX) || (action_a
            is Defect && agent_a.defections == u32::MAX) {
            Some(AEZError::CounterOverflow)
        } else if (action_b is Cooperate && agent_b.cooperations == u32::MAX) || (action_b
            is Defect && agent_b.defections == u32::MAX) {
            Some(AEZError::CounterOverflow)
        } else {
            None
        }
    }
}

/// Resolves an open commitment whose two sides have both revealed: computes
/// both rewards from the payoff table, credits each agent's balance, counts
/// the interaction and each agent's own action, sets each fitness score to
/// the new balance, and marks the commitment resolved — atomically, and at
/// most once. On any failure nothing is mutated; in particular a second
/// resolution of the same commitment fails and leaves every balance as the
/// first left it.
pub fn resolve_commitment(
    commitment: &mut Commitment,
    agent_a: &mut Agent,
    agent_b: &mut Agent,
) -> (r: Result<(u64, u64), AEZError>)
    ensures
        r is Err <==> resolve_error(*old(commitment), *old(agent_a), *old(agent_b)) is Some,
        r matches Err(e) ==> Some(e) == resolve_error(
            *old(commitment),
            *old(agent_a),
            *old(agent_b),
        ) && *final(commitment) == *old(commitment) && *final(agent_a) == *old(agent_a)
            && *final(agent_b) == *old(agent_b),
        r matches Ok(rewards) ==> ({
            let action_a = revealed_action(old(commitment).side_a);
            let action_b = revealed_action(old(commitment).side_b);
            let stake = old(commitment).compute_stake as int;
            &&& rewards.0 == spec_reward_a(action_a, action_b, stake)
            &&& rewards.1 == spec_reward_b(action_a, action_b, stake)
            &&& *final(commitment) == (Commitment { resolved: true, ..*old(commitment) })
            &&& *final(agent_a) == settled_agent(*old(agent_a), action_a, rewards.0)
            &&& *final(agent_b) == settled_agent(*old(agent_b), action_b, rewards.1)
        }),
{
    if commitment.resolved {
        return Err(AEZError::CommitmentAlreadyResolved);
    }
    let action_a = match commitment.side_a {
        SideState::Revealed(a) => a,
        _ => {
            return Err(AEZError::ActionNotRevealed);
        },
    };
    let action_b = match commitment.side_b {
        SideState::Revealed(a) => a,
        _ => {
            return Err(AEZError::ActionNotRevealed);
        },
    };
    let (reward_a, reward_b) = match compute_payoff(action_a, action_b, commitment.compute_stake) {
        Some(rewards) => rewards,
        None => {
            return Err(AEZError::ComputeOverflow);
        },
    };
    let new_balance_a = match agent_a.compute_balance.checked_add(reward_a) {
        Some(balance) => balance,
        None => {
            return Err(AEZError::ComputeOverflow);
        },
    };
    let new_balance_b = match agent_b.compute_balance.checked_add(reward_b) {
        Some(balance) => balance,
        None => {
            return Err(AEZError::ComputeOverflow);
        },
    };
    if agent_a.interactions == u32::MAX {
        return Err(AEZError::CounterOverflow);
    }
    if agent_b.interactions == u32::MAX {
        return Err(AEZError::CounterOverflow);
    }
    let own_counter_a = match action_a {
        Action::Cooperate => agent_a.cooperations,
        Action::Defect => agent_a.defections,
    };
    if own_counter_a == u32::MAX {
        return Err(AEZError::CounterOverflow);
    }
    let own_counter_b = match action_b {
        Action::Cooperate => agent_b.cooperations,
        Action::Defect => agent_b.defections,
    };
    if own_counter_b == u32::MAX {
        return Err(AEZError::CounterOverflow);
    }
    agent_a.compute_balance = new_balance_a;
    agent_b.compute_balance = new_balance_b;
    agent_a.interactions = agent_a.interactions + 1;
    agent_b.interactions = agent_b.interactions + 1;
    match action_a {
        Action::Cooperate => {
            agent_a.cooperations = agent_a.cooperations + 1;
        },
        Action::Defect => {
            agent_a.defections = agent_a.defections + 1;
        },
    }
    match action_b {
        Action::Cooperate => {
            agent_b.cooperations = agent_b.cooperations + 1;
        },
        Action::Defect => {
            agent_b.defections = agent_b.defections + 1;
        },
    }
    agent_a.fitness_score = fitness_value(new_balance_a);
    agent_b.fitness_score = fitness_value(new_balance_b);
    commitment.resolved = true;
    Ok((reward_a, reward_b))
}

/// A resolved commitment can never be resolved again: whatever the agents'
/// state, a second resolution attempt is rejected as already resolved, and
/// `resolve_commitment` then leaves every balance and counter untouched.
pub proof fn lemma_double_resolution(c: Commitment, agent_a: Agent, agent_b: Agent)
    requires
        c.resolved,
    ensures
        resolve_error(c, agent_a, agent_b) == Some(AEZError::CommitmentAlreadyResolved),
{
}

/// Commitment identifiers never collide: a creation allocates the counter's
/// current reading and moves the counter strictly past it, and the counter
/// never decreases, so any later creation allocates a strictly larger
/// sequence number.
pub proof fn lemma_commitment_ids_distinct(first_seq: u64, count_between: u64, second_seq: u64)
    requires
        first_seq < count_between,
        count_between <= second_seq,
    ensures
        first_seq != second_seq,
{
}

} // verus!
