//! Verified core of an autonomous-economic-zone game: a commit-reveal
//! prisoner's-dilemma wager between two agents, a fixed payoff table, a
//! directed weighted trust graph, and transitive trust-path discovery.

pub mod agents;
pub mod commitment;
pub mod errors;
pub mod hashing;
pub mod path;
pub mod payoff;
pub mod trust;
