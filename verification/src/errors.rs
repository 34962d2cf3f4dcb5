//! Failure kinds reported by the core operations. Every operation either
//! fully completes or fails with one of these, leaving all state untouched.

use vstd::prelude::*;

verus! {

/// The specific reason a core operation was rejected.
#[derive(Clone, Copy, Debug, PartialEq, Eq)]
pub enum AEZError {
    /// The agent's liveness flag is already cleared.
    AgentAlreadyDead,
    /// An agent's compute balance is below the requested stake.
    InsufficientCompute,
    /// The commitment has already been resolved.
    CommitmentAlreadyResolved,
    /// The side has already submitted a commit hash.
    AlreadyCommitted,
    /// The side has not submitted a commit hash yet.
    NotCommitted,
    /// The revealed action and nonce do not hash to the stored commitment.
    HashMismatch,
    /// A side has not revealed its action yet.
    ActionNotRevealed,
    /// The caller does not control the agent named for the side.
    Unauthorized,
    /// The named agent does not occupy the claimed side of the commitment.
    WrongAgent,
    /// A checked balance or reward computation would wrap.
    ComputeOverflow,
    /// A checked counter increment would wrap.
    CounterOverflow,
    /// The stake is below the fixed minimum threshold.
    StakeTooSmall,
    /// The trust path has fewer than two nodes.
    PathTooShort,
    /// The trust path has more than five nodes.
    PathTooLong,
    /// The trust path visits some node twice.
    CircularPath,
    /// The edge list does not have exactly one edge per hop.
    InvalidPathLength,
    /// The accumulated stake history would wrap.
    StakeOverflow,
}

} // verus!
