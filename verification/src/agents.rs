//! Agent and genome records: the external ledger owns and persists them; the
//! core reads balances and liveness for precondition checks and writes new
//! balances and stats. Registry operations here are record creation and
//! field copies. Agents and genomes are referenced by numeric identifiers.

use crate::errors::AEZError;
use vstd::prelude::*;

verus! {

/// A strategy template that a genome carries for its agents.
#[derive(Clone, Copy, Debug, PartialEq, Eq)]
pub enum Strategy {
    /// Always cooperate.
    Cooperator,
    /// Always defect.
    Defector,
    /// Mirror the opponent's last move.
    TitForTat,
    /// Cooperate until betrayed, then always defect.
    Grudger,
    /// Choose at random.
    Random,
}

/// An immortal strategy template from which agents are spawned.
#[derive(Debug, PartialEq)]
pub struct Genome {
    pub authority: u64,
    pub name: String,
    pub strategy: Strategy,
    pub mutation_rate: u8,
    pub generation: u32,
    pub total_spawned: u64,
    pub total_fitness: u128,
    pub created_at: i64,
}

/// An autonomous economic agent: a compute balance, a liveness flag and
/// cumulative interaction stats.
#[derive(Clone, Copy, Debug, PartialEq, Eq)]
pub struct Agent {
    pub genome: u64,
    pub authority: u64,
    pub compute_balance: u64,
    pub fitness_score: i64,
    pub interactions: u32,
    pub cooperations: u32,
    pub defections: u32,
    pub generation: u32,
    pub alive: bool,
    pub spawned_at: i64,
}

/// A fitness score read as an unsigned 128-bit value, two's-complement
/// style: a negative score wraps around the top of the range.
pub open spec fn fitness_as_u128(score: i64) -> int {
    if score >= 0 {
        score as int
    } else {
        score + 0x100000000000000000000000000000000
    }
}

/// Creates a genome record at generation zero with empty stats.
pub fn create_genome(
    authority: u64,
    name: String,
    strategy: Strategy,
    mutation_rate: u8,
    now: i64,
) -> (genome: Genome)
    ensures
        genome == (Genome {
            authority,
            name,
            strategy,
            mutation_rate,
            generation: 0,
            total_spawned: 0,
            total_fitness: 0,
            created_at: now,
        }),
{
    Genome {
        authority,
        name,
        strategy,
        mutation_rate,
        generation: 0,
        total_spawned: 0,
        total_fitness: 0,
        created_at: now,
    }
}

/// Spawns a live agent from a genome, counting the spawn on the genome.
pub fn spawn_agent(
    genome: &mut Genome,
    genome_key: u64,
    authority: u64,
    initial_compute: u64,
    now: i64,
) -> (agent: Agent)
    requires
        old(genome).total_spawned < u64::MAX,
    ensures
        *final(genome) == (Genome {
            total_spawned: (old(genome).total_spawned + 1) as u64,
            ..*old(genome)
        }),
        agent == (Agent {
            genome: genome_key,
            authority,
            compute_balance: initial_compute,
            fitness_score: 0,
            interactions: 0,
            cooperations: 0,
            defections: 0,
            generation: old(genome).generation,
            alive: true,
            spawned_at: now,
        }),
{
    let agent = Agent {
        genome: genome_key,
        authority,
        compute_balance: initial_compute,
        fitness_score: 0,
        interactions: 0,
        cooperations: 0,
        defections: 0,
        generation: genome.generation,
        alive: true,
        spawned_at: now,
    };
    genome.total_spawned = genome.total_spawned + 1;
    agent
}

/// Kills a live agent and folds its final fitness into the genome's total.
/// A dead agent is rejected and nothing changes.
pub fn kill_agent(agent: &mut Agent, genome: &mut Genome) -> (r: Result<(), AEZError>)
    requires
        old(agent).alive ==> old(genome).total_fitness + fitness_as_u128(
            old(agent).fitness_score,
        ) <= u128::MAX,
    ensures
        r is Ok <==> old(agent).alive,
        r matches Err(e) ==> e == AEZError::AgentAlreadyDead && *final(agent) == *old(agent)
            && *final(genome) == *old(genome),
        r is Ok ==> *final(agent) == (Agent { alive: false, ..*old(agent) }),
        r is Ok ==> *final(genome) == (Genome {
            total_fitness: (old(genome).total_fitness + fitness_as_u128(
                old(agent).fitness_score,
            )) as u128,
            ..*old(genome)
        }),
{
    if !agent.alive {
        return Err(AEZError::AgentAlreadyDead);
    }
    agent.alive = false;
    let contribution: u128 = if agent.fitness_score >= 0 {
        agent.fitness_score as u128
    } else {
        u128::MAX - ((-(agent.fitness_score + 1)) as u128)
    };
    genome.total_fitness = genome.total_fitness + contribution;
    Ok(())
}

/// Forks a genome: the child copies the parent's strategy and mutation rate
/// one generation later, with empty stats.
pub fn fork_genome(parent: &Genome, authority: u64, new_name: String, now: i64) -> (child: Genome)
    requires
        parent.generation < u32::MAX,
    ensures
        child == (Genome {
            authority,
            name: new_name,
            strategy: parent.strategy,
            mutation_rate: parent.mutation_rate,
            generation: (parent.generation + 1) as u32,
            total_spawned: 0,
            total_fitness: 0,
            created_at: now,
        }),
{
    Genome {
        authority,
        name: new_name,
        strategy: parent.strategy,
        mutation_rate: parent.mutation_rate,
        generation: parent.generation + 1,
        total_spawned: 0,
        total_fitness: 0,
        created_at: now,
    }
}

} // verus!
