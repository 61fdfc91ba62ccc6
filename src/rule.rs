//! The voting rules behind one type, chosen when the voter is set up.

use vstd::prelude::*;
use crate::ancestry::{ancestor_walk, AncestryError};
use crate::chain::{BlockNumber, Header, HeaderBackend, VoteTarget};
use crate::diagnostic::{delayed_target_number, ApprovedAncestorQuery, DiagnosticRule};
use crate::pause::{pause_restriction, PauseAfterBlockFor};

verus! {

/// A voting rule selected at run time.
#[derive(Clone, Copy, Debug, PartialEq, Eq)]
pub enum VotingRule {
    Pause(PauseAfterBlockFor),
    Diagnostic(DiagnosticRule),
}

/// A rule's answer for one round: the target to vote for instead of the
/// proposed one, if any, and a query to put to approval checking, if any.
#[derive(Clone, Copy, Debug, PartialEq, Eq)]
pub struct Restriction {
    pub target: Option<VoteTarget>,
    pub query: Option<ApprovedAncestorQuery>,
}

impl VotingRule {
    /// Runs the selected rule on the bounds of one round.
    pub fn restrict_vote<B: HeaderBackend>(
        &self,
        backend: &B,
        base: &Header,
        best_target: &Header,
        current_target: &Header,
    ) -> (r: Result<Restriction, AncestryError>)
        requires
            base.number <= current_target.number,
        ensures
            match *self {
                VotingRule::Pause(p) => match pause_restriction(
                    p,
                    backend,
                    *base,
                    *best_target,
                    *current_target,
                ) {
                    Ok(t) => r == Ok::<Restriction, AncestryError>(
                        Restriction { target: t, query: None },
                    ),
                    Err(e) => r == Err::<Restriction, AncestryError>(e),
                },
                VotingRule::Diagnostic(_) => match ancestor_walk(
                    backend,
                    current_target.hash,
                    *current_target,
                    delayed_target_number(
                        base.number,
                        best_target.number,
                        current_target.number,
                    ) as BlockNumber,
                ) {
                    Ok(t) => r == Ok::<Restriction, AncestryError>(
                        Restriction {
                            target: Some(t),
                            query: Some(
                                ApprovedAncestorQuery {
                                    best_hash: best_target.hash,
                                    base_number: base.number,
                                },
                            ),
                        },
                    ),
                    Err(e) => r == Err::<Restriction, AncestryError>(e),
                },
            },
    {
        match self {
            VotingRule::Pause(p) => match p.restrict_vote(backend, base, best_target, current_target) {
                Ok(t) => Ok(Restriction { target: t, query: None }),
                Err(e) => Err(e),
            },
            VotingRule::Diagnostic(d) => match d.restrict_vote(
                backend,
                base,
                best_target,
                current_target,
            ) {
                Ok(v) => Ok(Restriction { target: Some(v.target), query: Some(v.query) }),
                Err(e) => Err(e),
            },
        }
    }
}

} // verus!
