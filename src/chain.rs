//! Headers, vote targets and the read capability over stored headers.

use vstd::prelude::*;

verus! {

broadcast use vstd::array::group_array_axioms;

/// Content identifier of a block.
pub type BlockHash = [u8; 32];

/// Height of a block.
pub type BlockNumber = u32;

/// A block to vote for: its hash and its height.
pub type VoteTarget = (BlockHash, BlockNumber);

/// An immutable block header.
#[derive(Clone, Copy, Debug, PartialEq, Eq)]
pub struct Header {
    pub number: BlockNumber,
    pub hash: BlockHash,
    pub parent_hash: BlockHash,
}

impl Header {
    /// The vote target that names this header.
    pub fn target(&self) -> (r: VoteTarget)
        ensures
            r == (self.hash, self.number),
    {
        (self.hash, self.number)
    }
}

/// Read access to stored headers, looked up by hash.
pub trait HeaderBackend {
    /// The header stored under `hash`, if any.
    spec fn header_spec(&self, hash: BlockHash) -> Option<Header>;

    fn header(&self, hash: &BlockHash) -> (r: Option<Header>)
        ensures
            r == self.header_spec(*hash),
    ;
}

/// Byte-wise equality of two hashes.
pub fn same_hash(a: &BlockHash, b: &BlockHash) -> (r: bool)
    ensures
        r == (*a == *b),
{
    let mut i: usize = 0;
    while i < 32
        invariant
            i <= 32,
            forall|j: int| 0 <= j < i ==> a@[j] == b@[j],
        decreases 32 - i,
    {
        if a[i] != b[i] {
            return false;
        }
        i = i + 1;
    }
    assert(*a =~= *b);
    true
}

/// The first header of `headers` whose hash is `hash`.
pub open spec fn first_with_hash(headers: Seq<Header>, hash: BlockHash) -> Option<Header>
    decreases headers.len(),
{
    if headers.len() == 0 {
        None
    } else if headers[0].hash == hash {
        Some(headers[0])
    } else {
        first_with_hash(headers.drop_first(), hash)
    }
}

/// An in-memory header store.
pub struct HeaderStore {
    pub headers: Vec<Header>,
}

impl HeaderStore {
    pub fn new() -> (r: HeaderStore)
        ensures
            r.headers@ == Seq::<Header>::empty(),
    {
        HeaderStore { headers: Vec::new() }
    }

    /// Adds a header; an earlier header with the same hash keeps precedence.
    pub fn import(&mut self, header: Header)
        ensures
            final(self).headers@ == old(self).headers@.push(header),
    {
        self.headers.push(header);
    }
}

impl HeaderBackend for HeaderStore {
    open spec fn header_spec(&self, hash: BlockHash) -> Option<Header> {
        first_with_hash(self.headers@, hash)
    }

    fn header(&self, hash: &BlockHash) -> (r: Option<Header>) {
        let mut i: usize = 0;
        assert(self.headers@.subrange(0, self.headers@.len() as int) =~= self.headers@);
        while i < self.headers.len()
            invariant
                i <= self.headers@.len(),
                first_with_hash(self.headers@, *hash)
                    == first_with_hash(self.headers@.subrange(i as int, self.headers@.len() as int), *hash),
            decreases self.headers@.len() - i,
        {
            let h = self.headers[i];
            assert(self.headers@.subrange(i as int, self.headers@.len() as int).drop_first()
                =~= self.headers@.subrange(i + 1, self.headers@.len() as int));
            if same_hash(&h.hash, hash) {
                return Some(h);
            }
            i = i + 1;
        }
        None
    }
}

} // verus!
