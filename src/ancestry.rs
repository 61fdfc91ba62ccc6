//! Locating the ancestor of a header at a given height by walking parent links.

use vstd::prelude::*;
use crate::chain::{BlockHash, BlockNumber, Header, HeaderBackend, VoteTarget};

verus! {

/// A broken storage invariant met while walking back along a chain.
///
/// Every ancestor of a stored header is stored too, one height below its
/// child. Meeting either outcome means the header store is corrupt or was
/// pruned wrongly; it is never a reason to vote for some other block.
#[derive(Clone, Copy, Debug, PartialEq, Eq)]
pub enum AncestryError {
    /// The parent of a header on the walk is not stored.
    MissingAncestor,
    /// The walk stepped below the height it was looking for, or a parent
    /// was not lower than its child.
    BrokenChain,
}

/// The outcome of walking back from `header`, known by `hash`, to height `target`.
pub open spec fn ancestor_walk<B: HeaderBackend>(
    backend: &B,
    hash: BlockHash,
    header: Header,
    target: BlockNumber,
) -> Result<VoteTarget, AncestryError>
    decreases header.number,
{
    if header.number < target {
        Err(AncestryError::BrokenChain)
    } else if header.number == target {
        Ok((hash, target))
    } else {
        match backend.header_spec(header.parent_hash) {
            None => Err(AncestryError::MissingAncestor),
            Some(parent) => if parent.number < header.number {
                ancestor_walk(backend, header.parent_hash, parent, target)
            } else {
                Err(AncestryError::BrokenChain)
            },
        }
    }
}

/// Whether `ancestor` is `hash` itself or is reached from `header` (known by
/// `hash`) by following stored parent links.
pub open spec fn on_ancestry_path<B: HeaderBackend>(
    backend: &B,
    hash: BlockHash,
    header: Header,
    ancestor: BlockHash,
) -> bool
    decreases header.number,
{
    hash == ancestor || match backend.header_spec(header.parent_hash) {
        None => false,
        Some(parent) => parent.number < header.number && on_ancestry_path(
            backend,
            header.parent_hash,
            parent,
            ancestor,
        ),
    }
}

/// A resolved ancestor sits exactly at the requested height and lies on the
/// ancestry path of the header the walk started from.
pub proof fn lemma_resolved_ancestor<B: HeaderBackend>(
    backend: &B,
    hash: BlockHash,
    header: Header,
    target: BlockNumber,
)
    ensures
        ancestor_walk(backend, hash, header, target) matches Ok(t) ==> t.1 == target
            && on_ancestry_path(backend, hash, header, t.0),
    decreases header.number,
{
    if header.number > target {
        match backend.header_spec(header.parent_hash) {
            None => {},
            Some(parent) => {
                if parent.number < header.number {
                    lemma_resolved_ancestor(backend, header.parent_hash, parent, target);
                }
            },
        }
    }
}

/// Walks parent links back from `current_header` to the header at
/// `target_number` and returns its hash and height.
pub fn find_target<B: HeaderBackend>(
    backend: &B,
    target_number: BlockNumber,
    current_header: &Header,
) -> (r: Result<VoteTarget, AncestryError>)
    requires
        target_number <= current_header.number,
    ensures
        r == ancestor_walk(backend, current_header.hash, *current_header, target_number),
        r matches Ok(t) ==> t.1 == target_number
            && on_ancestry_path(backend, current_header.hash, *current_header, t.0),
{
    let mut target_hash: BlockHash = current_header.hash;
    let mut target_header: Header = *current_header;
    proof {
        lemma_resolved_ancestor(backend, current_header.hash, *current_header, target_number);
    }
    loop
        invariant
            ancestor_walk(backend, current_header.hash, *current_header, target_number)
                == ancestor_walk(backend, target_hash, target_header, target_number),
            ancestor_walk(backend, current_header.hash, *current_header, target_number) matches Ok(t)
                ==> t.1 == target_number
                && on_ancestry_path(backend, current_header.hash, *current_header, t.0),
        decreases target_header.number,
    {
        if target_header.number < target_number {
            return Err(AncestryError::BrokenChain);
        }
        if target_header.number == target_number {
            return Ok((target_hash, target_number));
        }
        let parent_hash = target_header.parent_hash;
        match backend.header(&parent_hash) {
            None => {
                return Err(AncestryError::MissingAncestor);
            },
            Some(parent) => {
                if parent.number >= target_header.number {
                    return Err(AncestryError::BrokenChain);
                }
                target_hash = parent_hash;
                target_header = parent;
            },
        }
    }
}

} // verus!
