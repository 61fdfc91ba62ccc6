//! A voting rule that keeps a fixed delay behind the best block, and the
//! arithmetic of the approval-checking lag that it reports beside it.

use vstd::prelude::*;
use crate::ancestry::{ancestor_walk, find_target, lemma_resolved_ancestor, AncestryError};
use crate::chain::{BlockHash, BlockNumber, Header, HeaderBackend, VoteTarget};

verus! {

/// How many blocks behind the best block the diagnostic rule votes.
pub const DIAGNOSTIC_GRANDPA_DELAY: BlockNumber = 50;

/// The question put to approval checking: which ancestor of `best_hash`,
/// not below `base_number`, would it approve as finalizable?
#[derive(Clone, Copy, Debug, PartialEq, Eq)]
pub struct ApprovedAncestorQuery {
    pub best_hash: BlockHash,
    pub base_number: BlockNumber,
}

/// What the diagnostic rule decides for one round: the block to vote for,
/// and the query whose answer only feeds the lag metric.
#[derive(Clone, Copy, Debug, PartialEq, Eq)]
pub struct DiagnosticVote {
    pub target: VoteTarget,
    pub query: ApprovedAncestorQuery,
}

/// Votes a fixed number of blocks behind the best block, never above the
/// proposed target and never below the base.
#[derive(Clone, Copy, Debug, PartialEq, Eq)]
pub struct DiagnosticRule;

/// `a - b`, or zero where `b` exceeds `a`.
pub open spec fn saturating_minus(a: int, b: int) -> int {
    if a >= b {
        a - b
    } else {
        0
    }
}

/// The height the diagnostic rule votes for.
pub open spec fn delayed_target_number(
    base: BlockNumber,
    best: BlockNumber,
    current: BlockNumber,
) -> int {
    let behind = saturating_minus(best as int, DIAGNOSTIC_GRANDPA_DELAY as int);
    let capped = if behind <= current { behind } else { current as int };
    if capped >= base { capped } else { base as int }
}

/// The lag of approval checking behind the best block: the distance from
/// the block it would approve, or from the base where it named none.
pub open spec fn lag_of(best: BlockNumber, base: BlockNumber, approved: Option<VoteTarget>) -> int {
    match approved {
        Some(t) => best - t.1,
        None => best - base,
    }
}

impl DiagnosticRule {
    pub fn new() -> (r: DiagnosticRule)
        ensures
            r == DiagnosticRule,
    {
        DiagnosticRule
    }

    /// The height to vote for in a round with these bounds.
    pub fn target_number(
        &self,
        base: BlockNumber,
        best: BlockNumber,
        current: BlockNumber,
    ) -> (r: BlockNumber)
        ensures
            r == delayed_target_number(base, best, current),
    {
        let behind = best.saturating_sub(DIAGNOSTIC_GRANDPA_DELAY);
        let capped = if behind <= current { behind } else { current };
        if capped >= base { capped } else { base }
    }

    /// Decides one round: the ancestor of `current_target` at the delayed
    /// height, and the query to put to approval checking.
    pub fn restrict_vote<B: HeaderBackend>(
        &self,
        backend: &B,
        base: &Header,
        best_target: &Header,
        current_target: &Header,
    ) -> (r: Result<DiagnosticVote, AncestryError>)
        requires
            base.number <= current_target.number,
        ensures
            match ancestor_walk(
                backend,
                current_target.hash,
                *current_target,
                delayed_target_number(base.number, best_target.number, current_target.number)
                    as BlockNumber,
            ) {
                Ok(t) => r == Ok::<DiagnosticVote, AncestryError>(
                    DiagnosticVote {
                        target: t,
                        query: ApprovedAncestorQuery {
                            best_hash: best_target.hash,
                            base_number: base.number,
                        },
                    },
                ),
                Err(e) => r == Err::<DiagnosticVote, AncestryError>(e),
            },
    {
        let number = self.target_number(base.number, best_target.number, current_target.number);
        let query = ApprovedAncestorQuery { best_hash: best_target.hash, base_number: base.number };
        match find_target(backend, number, current_target) {
            Ok(t) => Ok(DiagnosticVote { target: t, query }),
            Err(e) => Err(e),
        }
    }

    /// The lag to report, given approval checking's answer to the query
    /// (`None` where it named no block or never answered).
    pub fn checking_lag(
        &self,
        best_number: BlockNumber,
        base_number: BlockNumber,
        approved: Option<VoteTarget>,
    ) -> (r: i64)
        ensures
            r == lag_of(best_number, base_number, approved),
    {
        match approved {
            Some(t) => best_number as i64 - t.1 as i64,
            None => best_number as i64 - base_number as i64,
        }
    }
}

/// The diagnostic rule's target lies between the round's base and the
/// proposed target, and is no higher than the best block less the delay
/// whenever that height is not below the base.
pub proof fn lemma_diagnostic_bounds<B: HeaderBackend>(
    backend: &B,
    base: Header,
    best_target: Header,
    current_target: Header,
)
    requires
        base.number <= current_target.number,
    ensures
        ({
            let n = delayed_target_number(base.number, best_target.number, current_target.number);
            ancestor_walk(backend, current_target.hash, current_target, n as BlockNumber) matches Ok(t)
                ==> base.number <= t.1 <= current_target.number
                && (best_target.number - DIAGNOSTIC_GRANDPA_DELAY >= base.number
                    ==> t.1 <= best_target.number - DIAGNOSTIC_GRANDPA_DELAY)
        }),
{
    let n = delayed_target_number(base.number, best_target.number, current_target.number);
    lemma_resolved_ancestor(backend, current_target.hash, current_target, n as BlockNumber);
}

} // verus!
