//! The hash-binding helper of the commit-reveal protocol: a commit hash is
//! the SHA-256 digest of a one-byte action tag followed by a 32-byte nonce.
//! The digest itself comes from the ledger's hash primitive; everything
//! around it is verified.

use crate::payoff::Action;
use vstd::prelude::*;

verus! {

/// The byte tag that identifies an action inside a digest preimage.
pub open spec fn spec_action_tag(action: Action) -> u8 {
    match action {
        Action::Cooperate => 0u8,
        Action::Defect => 1u8,
    }
}

/// Returns the byte tag for an action.
pub fn action_tag(action: Action) -> (tag: u8)
    ensures
        tag == spec_action_tag(action),
{
    match action {
        Action::Cooperate => 0u8,
        Action::Defect => 1u8,
    }
}

/// The SHA-256 digest of a byte string, as the ledger's hash primitive
/// computes it.
pub uninterp spec fn sha256_of(data: Seq<u8>) -> Seq<u8>;

/// Relies on anchor_lang::solana_program::hash::hash, the SHA-256 primitive:
/// the 32-byte digest depends on the input bytes alone.
#[verifier::external_body]
fn sha256_digest(data: &Vec<u8>) -> (digest: [u8; 32])
    ensures
        digest@ == sha256_of(data@),
{
    anchor_lang::solana_program::hash::hash(data.as_slice()).to_bytes()
}

/// The digest preimage: the action's one-byte tag followed by the nonce.
pub open spec fn commit_preimage(action: Action, nonce: Seq<u8>) -> Seq<u8> {
    seq![spec_action_tag(action)] + nonce
}

/// The commit hash that binds an action to a nonce.
pub open spec fn spec_commit_hash(action: Action, nonce: Seq<u8>) -> Seq<u8> {
    sha256_of(commit_preimage(action, nonce))
}

/// Computes the commit hash for an action and a nonce: the digest of the
/// action tag concatenated with the nonce.
pub fn commit_hash(action: Action, nonce: &[u8; 32]) -> (digest: [u8; 32])
    ensures
        digest@ == spec_commit_hash(action, nonce@),
{
    let mut data: Vec<u8> = Vec::new();
    data.push(action_tag(action));
    let mut i: usize = 0;
    while i < 32
        invariant
            i <= 32,
            data@ == seq![spec_action_tag(action)] + nonce@.take(i as int),
        decreases 32 - i,
    {
        data.push(nonce[i]);
        i = i + 1;
        proof {
            assert(data@ =~= seq![spec_action_tag(action)] + nonce@.take(i as int));
        }
    }
    proof {
        assert(data@ =~= commit_preimage(action, nonce@));
    }
    sha256_digest(&data)
}

/// Compares two 32-byte strings, as the reveal step does when it holds a
/// claimed digest against the stored one.
pub fn bytes32_eq(a: &[u8; 32], b: &[u8; 32]) -> (eq: bool)
    ensures
        eq <==> a@ == b@,
{
    let mut i: usize = 0;
    while i < 32
        invariant
            i <= 32,
            forall|j: int| 0 <= j < i ==> a@[j] == b@[j],
        decreases 32 - i,
    {
        if a[i] != b[i] {
            return false;
        }
        i = i + 1;
    }
    proof {
        assert(a@ =~= b@);
    }
    true
}

} // verus!
