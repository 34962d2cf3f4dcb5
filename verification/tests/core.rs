use aez_evolution::agents::Agent;
use aez_evolution::agents::Genome;
use aez_evolution::agents::Strategy;
use aez_evolution::agents::create_genome;
use aez_evolution::agents::fork_genome;
use aez_evolution::agents::kill_agent;
use aez_evolution::agents::spawn_agent;
use aez_evolution::commitment::Commitment;
use aez_evolution::commitment::CommitmentCounter;
use aez_evolution::commitment::MIN_STAKE;
use aez_evolution::commitment::SideState;
use aez_evolution::commitment::create_commitment;
use aez_evolution::commitment::initialize_counter;
use aez_evolution::commitment::resolve_commitment;
use aez_evolution::commitment::reveal_action;
use aez_evolution::commitment::submit_action;
use aez_evolution::errors::AEZError;
use aez_evolution::hashing::commit_hash;
use aez_evolution::path::discover_via_path;
use aez_evolution::payoff::Action;
use aez_evolution::payoff::compute_payoff;
use aez_evolution::trust::TrustEdge;
use aez_evolution::trust::update_trust_edge;
use sha2::Digest;

fn live_agent(authority: u64, balance: u64) -> Agent {
    Agent {
        genome: 0,
        authority,
        compute_balance: balance,
        fitness_score: 0,
        interactions: 0,
        cooperations: 0,
        defections: 0,
        generation: 0,
        alive: true,
        spawned_at: 0,
    }
}

fn open_commitment(stake: u64, side_a: SideState, side_b: SideState) -> Commitment {
    Commitment {
        agent_a: 1,
        agent_b: 2,
        compute_stake: stake,
        side_a,
        side_b,
        resolved: false,
        sequence: 0,
        created_at: 0,
    }
}

fn fresh_edge() -> TrustEdge {
    TrustEdge {
        from: 0,
        to: 0,
        trust_score: 0,
        total_stake_committed: 0,
        interaction_count: 0,
        last_updated: 0,
    }
}

#[test]
fn create_commitment_debits_each_side_exactly_stake() {
    let mut a = live_agent(10, 100_000);
    let mut b = live_agent(20, 50_000);
    let mut counter = initialize_counter();
    let c = create_commitment(&mut a, &mut b, 1, 2, &mut counter, 20_000, 77).unwrap();
    assert_eq!(a.compute_balance, 80_000);
    assert_eq!(b.compute_balance, 30_000);
    // total escrow equals twice the stake
    assert_eq!(150_000 - a.compute_balance - b.compute_balance, 40_000);
    assert_eq!(c.agent_a, 1);
    assert_eq!(c.agent_b, 2);
    assert_eq!(c.compute_stake, 20_000);
    assert_eq!(c.side_a, SideState::NotCommitted);
    assert_eq!(c.side_b, SideState::NotCommitted);
    assert!(!c.resolved);
    assert_eq!(c.sequence, 0);
    assert_eq!(c.created_at, 77);
    assert_eq!(counter.count, 1);
}

#[test]
fn create_rejects_dead_agent() {
    let mut a = live_agent(10, 100_000);
    a.alive = false;
    let mut b = live_agent(20, 100_000);
    let mut counter = initialize_counter();
    let r = create_commitment(&mut a, &mut b, 1, 2, &mut counter, 20_000, 0);
    assert_eq!(r, Err(AEZError::AgentAlreadyDead));
    assert_eq!(a.compute_balance, 100_000);
    assert_eq!(b.compute_balance, 100_000);
    assert_eq!(counter.count, 0);
}

#[test]
fn create_rejects_insufficient_balance() {
    let mut a = live_agent(10, 100_000);
    let mut b = live_agent(20, 19_999);
    let mut counter = initialize_counter();
    let r = create_commitment(&mut a, &mut b, 1, 2, &mut counter, 20_000, 0);
    assert_eq!(r, Err(AEZError::InsufficientCompute));
    assert_eq!(a.compute_balance, 100_000);
    assert_eq!(b.compute_balance, 19_999);
}

#[test]
fn create_rejects_small_stake() {
    let mut a = live_agent(10, 100_000);
    let mut b = live_agent(20, 100_000);
    let mut counter = initialize_counter();
    let r = create_commitment(&mut a, &mut b, 1, 2, &mut counter, MIN_STAKE - 1, 0);
    assert_eq!(r, Err(AEZError::StakeTooSmall));
}

#[test]
fn create_rejects_counter_overflow() {
    let mut a = live_agent(10, 100_000);
    let mut b = live_agent(20, 100_000);
    let mut counter = CommitmentCounter { count: u64::MAX };
    let r = create_commitment(&mut a, &mut b, 1, 2, &mut counter, 20_000, 0);
    assert_eq!(r, Err(AEZError::CounterOverflow));
    assert_eq!(a.compute_balance, 100_000);
    assert_eq!(counter.count, u64::MAX);
}

#[test]
fn commitment_sequence_numbers_distinct() {
    let mut a = live_agent(10, 100_000);
    let mut b = live_agent(20, 100_000);
    let mut counter = initialize_counter();
    let first = create_commitment(&mut a, &mut b, 1, 2, &mut counter, 20_000, 0).unwrap();
    let second = create_commitment(&mut a, &mut b, 1, 2, &mut counter, 20_000, 0).unwrap();
    assert_ne!(first.sequence, second.sequence);
    assert_eq!(first.sequence, 0);
    assert_eq!(second.sequence, 1);
    assert_eq!(counter.count, 2);
}

#[test]
fn payoff_table_exact_values_at_stake_20000() {
    assert_eq!(
        compute_payoff(Action::Cooperate, Action::Cooperate, 20_000),
        Some((30_000, 30_000))
    );
    assert_eq!(
        compute_payoff(Action::Defect, Action::Defect, 20_000),
        Some((10_000, 10_000))
    );
    assert_eq!(
        compute_payoff(Action::Defect, Action::Cooperate, 20_000),
        Some((40_000, 0))
    );
    assert_eq!(
        compute_payoff(Action::Cooperate, Action::Defect, 20_000),
        Some((0, 40_000))
    );
}

#[test]
fn payoff_truncates_odd_stakes() {
    // 1.5x and 0.5x truncate toward zero
    assert_eq!(
        compute_payoff(Action::Cooperate, Action::Cooperate, 10_001),
        Some((15_001, 15_001))
    );
    assert_eq!(
        compute_payoff(Action::Defect, Action::Defect, 10_001),
        Some((5_000, 5_000))
    );
}

#[test]
fn payoff_rejects_wrapping_stake() {
    assert_eq!(compute_payoff(Action::Cooperate, Action::Cooperate, u64::MAX / 3 + 1), None);
    assert_eq!(compute_payoff(Action::Defect, Action::Cooperate, u64::MAX / 2 + 1), None);
    // mutual defection only halves, so it always fits
    assert_eq!(
        compute_payoff(Action::Defect, Action::Defect, u64::MAX),
        Some((u64::MAX / 2, u64::MAX / 2))
    );
}

#[test]
fn commit_hash_matches_sha256_of_tag_and_nonce() {
    let nonce = [7u8; 32];
    let digest = commit_hash(Action::Cooperate, &nonce);
    let mut preimage: Vec<u8> = vec![0u8];
    preimage.extend_from_slice(&nonce);
    let expected = sha2::Sha256::digest(&preimage);
    assert_eq!(digest.as_slice(), expected.as_slice());

    let digest_defect = commit_hash(Action::Defect, &nonce);
    let mut preimage_defect: Vec<u8> = vec![1u8];
    preimage_defect.extend_from_slice(&nonce);
    let expected_defect = sha2::Sha256::digest(&preimage_defect);
    assert_eq!(digest_defect.as_slice(), expected_defect.as_slice());
    assert_ne!(digest, digest_defect);
}

#[test]
fn submit_stores_hash_once_per_side() {
    let agent_a = live_agent(10, 0);
    let agent_b = live_agent(20, 0);
    let mut c = open_commitment(20_000, SideState::NotCommitted, SideState::NotCommitted);
    let hash_a = commit_hash(Action::Cooperate, &[1u8; 32]);
    let hash_b = commit_hash(Action::Defect, &[2u8; 32]);
    assert_eq!(submit_action(&mut c, &agent_a, 1, 10, hash_a, true), Ok(()));
    assert_eq!(c.side_a, SideState::Committed(hash_a));
    assert_eq!(submit_action(&mut c, &agent_b, 2, 20, hash_b, false), Ok(()));
    assert_eq!(c.side_b, SideState::Committed(hash_b));
    // a second submission on the same side is rejected
    assert_eq!(
        submit_action(&mut c, &agent_a, 1, 10, hash_a, true),
        Err(AEZError::AlreadyCommitted)
    );
    assert_eq!(c.side_a, SideState::Committed(hash_a));
}

#[test]
fn submit_rejects_unauthorized_and_wrong_agent() {
    let agent_a = live_agent(10, 0);
    let mut c = open_commitment(20_000, SideState::NotCommitted, SideState::NotCommitted);
    let hash = commit_hash(Action::Cooperate, &[1u8; 32]);
    assert_eq!(
        submit_action(&mut c, &agent_a, 1, 99, hash, true),
        Err(AEZError::Unauthorized)
    );
    assert_eq!(
        submit_action(&mut c, &agent_a, 5, 10, hash, true),
        Err(AEZError::WrongAgent)
    );
    assert_eq!(c.side_a, SideState::NotCommitted);
}

#[test]
fn reveal_succeeds_iff_hash_matches() {
    let agent_a = live_agent(10, 0);
    let nonce = [9u8; 32];
    let stored = commit_hash(Action::Cooperate, &nonce);
    let mut c = open_commitment(20_000, SideState::Committed(stored), SideState::NotCommitted);

    // wrong action under the right nonce is an integrity failure
    let mut c_try = c;
    assert_eq!(
        reveal_action(&mut c_try, &agent_a, 1, 10, Action::Defect, &nonce, true),
        Err(AEZError::HashMismatch)
    );
    assert_eq!(c_try, c);

    // wrong nonce under the right action is an integrity failure
    let mut c_try2 = c;
    assert_eq!(
        reveal_action(&mut c_try2, &agent_a, 1, 10, Action::Cooperate, &[8u8; 32], true),
        Err(AEZError::HashMismatch)
    );
    assert_eq!(c_try2, c);

    // the committed pair reveals
    assert_eq!(
        reveal_action(&mut c, &agent_a, 1, 10, Action::Cooperate, &nonce, true),
        Ok(())
    );
    assert_eq!(c.side_a, SideState::Revealed(Action::Cooperate));
}

#[test]
fn reveal_rejects_uncommitted_side() {
    let agent_b = live_agent(20, 0);
    let mut c = open_commitment(20_000, SideState::NotCommitted, SideState::NotCommitted);
    assert_eq!(
        reveal_action(&mut c, &agent_b, 2, 20, Action::Defect, &[0u8; 32], false),
        Err(AEZError::NotCommitted)
    );
}

#[test]
fn full_round_settles_mutual_cooperation() {
    let mut a = live_agent(10, 100_000);
    let mut b = live_agent(20, 100_000);
    let mut counter = initialize_counter();
    let mut c = create_commitment(&mut a, &mut b, 1, 2, &mut counter, 20_000, 0).unwrap();
    let nonce_a = [3u8; 32];
    let nonce_b = [4u8; 32];
    submit_action(&mut c, &a, 1, 10, commit_hash(Action::Cooperate, &nonce_a), true).unwrap();
    submit_action(&mut c, &b, 2, 20, commit_hash(Action::Cooperate, &nonce_b), false).unwrap();
    reveal_action(&mut c, &a, 1, 10, Action::Cooperate, &nonce_a, true).unwrap();
    reveal_action(&mut c, &b, 2, 20, Action::Cooperate, &nonce_b, false).unwrap();
    let rewards = resolve_commitment(&mut c, &mut a, &mut b).unwrap();
    assert_eq!(rewards, (30_000, 30_000));
    assert_eq!(a.compute_balance, 110_000);
    assert_eq!(b.compute_balance, 110_000);
    assert_eq!(a.interactions, 1);
    assert_eq!(a.cooperations, 1);
    assert_eq!(a.defections, 0);
    assert_eq!(b.cooperations, 1);
    assert_eq!(a.fitness_score, 110_000);
    assert!(c.resolved);
}

#[test]
fn double_resolution_rejected_and_balances_unchanged() {
    let mut a = live_agent(10, 80_000);
    let mut b = live_agent(20, 80_000);
    let mut c = open_commitment(
        20_000,
        SideState::Revealed(Action::Defect),
        SideState::Revealed(Action::Cooperate),
    );
    let rewards = resolve_commitment(&mut c, &mut a, &mut b).unwrap();
    assert_eq!(rewards, (40_000, 0));
    assert_eq!(a.compute_balance, 120_000);
    assert_eq!(b.compute_balance, 80_000);
    let after_first = (a, b, c);
    let r = resolve_commitment(&mut c, &mut a, &mut b);
    assert_eq!(r, Err(AEZError::CommitmentAlreadyResolved));
    assert_eq!((a, b, c), after_first);
}

#[test]
fn resolved_commitment_rejects_submit_and_reveal() {
    let agent_a = live_agent(10, 0);
    let mut c = open_commitment(20_000, SideState::NotCommitted, SideState::NotCommitted);
    c.resolved = true;
    let hash = commit_hash(Action::Cooperate, &[1u8; 32]);
    assert_eq!(
        submit_action(&mut c, &agent_a, 1, 10, hash, true),
        Err(AEZError::CommitmentAlreadyResolved)
    );
    assert_eq!(
        reveal_action(&mut c, &agent_a, 1, 10, Action::Cooperate, &[1u8; 32], true),
        Err(AEZError::CommitmentAlreadyResolved)
    );
    assert_eq!(c.side_a, SideState::NotCommitted);
}

#[test]
fn resolve_rejects_unrevealed_sides() {
    let mut a = live_agent(10, 0);
    let mut b = live_agent(20, 0);
    let mut c = open_commitment(
        20_000,
        SideState::Revealed(Action::Cooperate),
        SideState::Committed([0u8; 32]),
    );
    assert_eq!(
        resolve_commitment(&mut c, &mut a, &mut b),
        Err(AEZError::ActionNotRevealed)
    );
    assert!(!c.resolved);
}

#[test]
fn resolve_rejects_wrapping_payoff() {
    let mut a = live_agent(10, 0);
    let mut b = live_agent(20, 0);
    let mut c = open_commitment(
        u64::MAX / 2 + 1,
        SideState::Revealed(Action::Defect),
        SideState::Revealed(Action::Cooperate),
    );
    assert_eq!(
        resolve_commitment(&mut c, &mut a, &mut b),
        Err(AEZError::ComputeOverflow)
    );
    assert!(!c.resolved);
    assert_eq!(a.compute_balance, 0);
}

#[test]
fn resolve_rejects_wrapping_balance() {
    let mut a = live_agent(10, u64::MAX - 1_000);
    let mut b = live_agent(20, 0);
    let mut c = open_commitment(
        20_000,
        SideState::Revealed(Action::Cooperate),
        SideState::Revealed(Action::Cooperate),
    );
    assert_eq!(
        resolve_commitment(&mut c, &mut a, &mut b),
        Err(AEZError::ComputeOverflow)
    );
    assert_eq!(a.compute_balance, u64::MAX - 1_000);
    assert!(!c.resolved);
}

#[test]
fn resolve_fitness_wraps_above_signed_range() {
    let mut a = live_agent(10, u64::MAX - 40_000);
    let mut b = live_agent(20, 7);
    let mut c = open_commitment(
        20_000,
        SideState::Revealed(Action::Defect),
        SideState::Revealed(Action::Cooperate),
    );
    let rewards = resolve_commitment(&mut c, &mut a, &mut b).unwrap();
    assert_eq!(rewards, (40_000, 0));
    assert_eq!(a.compute_balance, u64::MAX);
    assert_eq!(a.fitness_score, -1);
    assert_eq!(b.compute_balance, 7);
    assert_eq!(b.fitness_score, 7);
    assert_eq!(a.defections, 1);
    assert_eq!(b.cooperations, 1);
}

#[test]
fn trust_update_initializes_neutral_and_rewards_cooperation() {
    let mut edge = fresh_edge();
    // a single "both cooperated" update from neutral yields 0.6
    assert_eq!(update_trust_edge(&mut edge, 1, 2, true, false, 20_000, 5), Ok(()));
    assert_eq!(edge.trust_score, 6_000);
    assert_eq!(edge.from, 1);
    assert_eq!(edge.to, 2);
    assert_eq!(edge.total_stake_committed, 20_000);
    assert_eq!(edge.interaction_count, 1);
    assert_eq!(edge.last_updated, 5);
    // a single betrayal from 0.6 yields 0.4
    assert_eq!(update_trust_edge(&mut edge, 1, 2, false, true, 10_000, 6), Ok(()));
    assert_eq!(edge.trust_score, 4_000);
    assert_eq!(edge.total_stake_committed, 30_000);
    assert_eq!(edge.interaction_count, 2);
}

#[test]
fn trust_score_never_leaves_unit_interval() {
    let mut edge = fresh_edge();
    update_trust_edge(&mut edge, 1, 2, true, false, 1, 0).unwrap();
    // push repeatedly past both bounds
    for _ in 0..10 {
        update_trust_edge(&mut edge, 1, 2, true, false, 1, 0).unwrap();
        assert!(edge.trust_score <= 10_000);
    }
    assert_eq!(edge.trust_score, 10_000);
    for _ in 0..10 {
        update_trust_edge(&mut edge, 1, 2, false, true, 1, 0).unwrap();
        assert!(edge.trust_score <= 10_000);
    }
    assert_eq!(edge.trust_score, 0);
    // a neutral outcome leaves the score alone
    update_trust_edge(&mut edge, 1, 2, false, false, 1, 0).unwrap();
    assert_eq!(edge.trust_score, 0);
}

#[test]
fn trust_update_rejects_wrapping_stake_history() {
    let mut edge = TrustEdge {
        from: 1,
        to: 2,
        trust_score: 5_000,
        total_stake_committed: u64::MAX - 10,
        interaction_count: 3,
        last_updated: 0,
    };
    let before = edge;
    assert_eq!(
        update_trust_edge(&mut edge, 1, 2, true, false, 100, 9),
        Err(AEZError::StakeOverflow)
    );
    assert_eq!(edge, before);
}

#[test]
fn trust_update_rejects_wrapping_interaction_count() {
    let mut edge = TrustEdge {
        from: 1,
        to: 2,
        trust_score: 5_000,
        total_stake_committed: 0,
        interaction_count: u32::MAX,
        last_updated: 0,
    };
    let before = edge;
    assert_eq!(
        update_trust_edge(&mut edge, 1, 2, false, false, 100, 9),
        Err(AEZError::CounterOverflow)
    );
    assert_eq!(edge, before);
}

fn scored_edge(from: u64, to: u64, score: u32) -> TrustEdge {
    TrustEdge {
        from,
        to,
        trust_score: score,
        total_stake_committed: 50_000,
        interaction_count: 4,
        last_updated: 11,
    }
}

#[test]
fn discover_path_three_nodes_yields_5832() {
    let path = vec![1u64, 2, 3];
    let edges = vec![scored_edge(1, 2, 8_000), scored_edge(2, 3, 9_000)];
    let edge = discover_via_path(&path, &edges, 42).unwrap();
    // 0.8 * 0.9 * 0.9^2 = 0.5832
    assert_eq!(edge.trust_score, 5_832);
    assert_eq!(edge.from, 1);
    assert_eq!(edge.to, 3);
    assert_eq!(edge.total_stake_committed, 0);
    assert_eq!(edge.interaction_count, 0);
    assert_eq!(edge.last_updated, 42);
}

#[test]
fn discover_path_rejects_repeated_node() {
    let path = vec![1u64, 2, 1];
    let edges = vec![scored_edge(1, 2, 8_000), scored_edge(2, 1, 9_000)];
    assert_eq!(discover_via_path(&path, &edges, 0), Err(AEZError::CircularPath));
}

#[test]
fn discover_path_rejects_edge_count_mismatch() {
    let path = vec![1u64, 2, 3];
    let edges = vec![scored_edge(1, 2, 8_000)];
    assert_eq!(discover_via_path(&path, &edges, 0), Err(AEZError::InvalidPathLength));
}

#[test]
fn discover_path_rejects_short_and_long_paths() {
    let one = vec![1u64];
    assert_eq!(discover_via_path(&one, &vec![], 0), Err(AEZError::PathTooShort));
    let six = vec![1u64, 2, 3, 4, 5, 6];
    let edges = vec![
        scored_edge(1, 2, 8_000),
        scored_edge(2, 3, 8_000),
        scored_edge(3, 4, 8_000),
        scored_edge(4, 5, 8_000),
        scored_edge(5, 6, 8_000),
    ];
    assert_eq!(discover_via_path(&six, &edges, 0), Err(AEZError::PathTooLong));
}

#[test]
fn discover_path_two_nodes_applies_one_decay() {
    let path = vec![4u64, 9];
    let edges = vec![scored_edge(4, 9, 10_000)];
    let edge = discover_via_path(&path, &edges, 1).unwrap();
    // 1.0 * 0.9 = 0.9
    assert_eq!(edge.trust_score, 9_000);
}

#[test]
fn genome_creation_and_fork() {
    let genome = create_genome(10, String::from("alpha"), Strategy::TitForTat, 5, 100);
    assert_eq!(genome.authority, 10);
    assert_eq!(genome.name, "alpha");
    assert_eq!(genome.strategy, Strategy::TitForTat);
    assert_eq!(genome.mutation_rate, 5);
    assert_eq!(genome.generation, 0);
    assert_eq!(genome.total_spawned, 0);
    assert_eq!(genome.total_fitness, 0);
    assert_eq!(genome.created_at, 100);

    let child = fork_genome(&genome, 11, String::from("alpha-2"), 200);
    assert_eq!(child.generation, 1);
    assert_eq!(child.strategy, Strategy::TitForTat);
    assert_eq!(child.mutation_rate, 5);
    assert_eq!(child.total_spawned, 0);
    assert_eq!(child.created_at, 200);
}

#[test]
fn spawn_agent_counts_spawn_on_genome() {
    let mut genome = create_genome(10, String::from("alpha"), Strategy::Grudger, 0, 0);
    let agent = spawn_agent(&mut genome, 55, 10, 123_456, 7);
    assert_eq!(genome.total_spawned, 1);
    assert_eq!(agent.genome, 55);
    assert_eq!(agent.authority, 10);
    assert_eq!(agent.compute_balance, 123_456);
    assert!(agent.alive);
    assert_eq!(agent.generation, 0);
    assert_eq!(agent.spawned_at, 7);
}

#[test]
fn kill_agent_folds_fitness_into_genome() {
    let mut genome = create_genome(10, String::from("alpha"), Strategy::Defector, 0, 0);
    let mut agent = spawn_agent(&mut genome, 55, 10, 0, 0);
    agent.fitness_score = 9_000;
    assert_eq!(kill_agent(&mut agent, &mut genome), Ok(()));
    assert!(!agent.alive);
    assert_eq!(genome.total_fitness, 9_000);
    // a dead agent is rejected and nothing changes
    assert_eq!(kill_agent(&mut agent, &mut genome), Err(AEZError::AgentAlreadyDead));
    assert_eq!(genome.total_fitness, 9_000);
}

#[test]
fn kill_agent_wraps_negative_fitness() {
    let mut genome = create_genome(10, String::from("alpha"), Strategy::Random, 0, 0);
    let mut agent = spawn_agent(&mut genome, 55, 10, 0, 0);
    agent.fitness_score = -1;
    assert_eq!(kill_agent(&mut agent, &mut genome), Ok(()));
    assert_eq!(genome.total_fitness, u128::MAX);
}
