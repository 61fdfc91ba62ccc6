//! A voting rule that holds finality at a chosen block for a number of blocks.

use vstd::prelude::*;
use crate::ancestry::{ancestor_walk, find_target, lemma_resolved_ancestor, AncestryError};
use crate::chain::{BlockNumber, Header, HeaderBackend, VoteTarget};

verus! {

/// Pauses voting after the block at height `N` (the first field) for `M`
/// blocks (the second field): until the best block is above `N + M`, votes
/// for anything above `N` are held back to block `N`.
#[derive(Clone, Copy, Debug, PartialEq, Eq)]
pub struct PauseAfterBlockFor(pub BlockNumber, pub BlockNumber);

/// Whether the pause is over once the best block is at height `best`.
pub open spec fn pause_expired(rule: PauseAfterBlockFor, best: BlockNumber) -> bool {
    best > rule.0 + rule.1
}

/// What the pause rule answers for one round.
pub open spec fn pause_restriction<B: HeaderBackend>(
    rule: PauseAfterBlockFor,
    backend: &B,
    base: Header,
    best_target: Header,
    current_target: Header,
) -> Result<Option<VoteTarget>, AncestryError> {
    if current_target.number <= rule.0 {
        Ok(None)
    } else if pause_expired(rule, best_target.number) {
        Ok(None)
    } else if base.number >= rule.0 {
        Ok(Some((base.hash, base.number)))
    } else {
        match ancestor_walk(backend, current_target.hash, current_target, rule.0) {
            Ok(t) => Ok(Some(t)),
            Err(e) => Err(e),
        }
    }
}

impl PauseAfterBlockFor {
    /// Restricts the vote of one round: `Ok(None)` leaves `current_target`
    /// as proposed, `Ok(Some(t))` asks to vote for `t` instead.
    pub fn restrict_vote<B: HeaderBackend>(
        &self,
        backend: &B,
        base: &Header,
        best_target: &Header,
        current_target: &Header,
    ) -> (r: Result<Option<VoteTarget>, AncestryError>)
        ensures
            r == pause_restriction(*self, backend, *base, *best_target, *current_target),
    {
        // only votes above the pause block are restricted
        if current_target.number <= self.0 {
            return Ok(None);
        }
        // past the pause period nothing is restricted any more
        if best_target.number as u64 > self.0 as u64 + self.1 as u64 {
            return Ok(None);
        }
        // once the pause block is finalized, keep voting for it
        if base.number >= self.0 {
            return Ok(Some(base.target()));
        }
        match find_target(backend, self.0, current_target) {
            Ok(t) => Ok(Some(t)),
            Err(e) => Err(e),
        }
    }
}

/// While the pause is active and the pause block is not below the round's
/// base, any target the rule asks for lies between the base and the pause
/// height.
pub proof fn lemma_pause_bounds<B: HeaderBackend>(
    rule: PauseAfterBlockFor,
    backend: &B,
    base: Header,
    best_target: Header,
    current_target: Header,
)
    requires
        base.number <= rule.0,
    ensures
        pause_restriction(rule, backend, base, best_target, current_target) matches Ok(Some(t))
            ==> base.number <= t.1 <= rule.0,
{
    lemma_resolved_ancestor(backend, current_target.hash, current_target, rule.0);
}

/// Once the best block is above `N + M`, the rule restricts no vote,
/// whatever the base and the proposed target.
pub proof fn lemma_pause_ends<B: HeaderBackend>(
    rule: PauseAfterBlockFor,
    backend: &B,
    base: Header,
    best_target: Header,
    current_target: Header,
)
    requires
        pause_expired(rule, best_target.number),
    ensures
        pause_restriction(rule, backend, base, best_target, current_target) == Ok::<
            Option<VoteTarget>,
            AncestryError,
        >(None),
{
}

} // verus!
