//! The in-memory buffer that a download streams into, chunk by chunk.
use vstd::prelude::*;

verus! {

/// Bytes received so far, and the size that the server announced, if any.
pub struct Download {
    bytes: Vec<u8>,
    total: Option<u64>,
}

impl View for Download {
    type V = Seq<u8>;

    closed spec fn view(&self) -> Seq<u8> {
        self.bytes@
    }
}

impl Download {
    /// The size that the server announced.
    pub closed spec fn announced(&self) -> Option<u64> {
        self.total
    }

    /// An empty buffer for a body of `total` bytes, when that is known.
    pub fn new(total: Option<u64>) -> (r: Download)
        ensures
            r@ == Seq::<u8>::empty(),
            r.announced() == total,
    {
        Download { bytes: Vec::new(), total }
    }

    /// Appends a chunk that was read.
    pub fn push_chunk(&mut self, chunk: &[u8])
        requires
            old(self)@.len() + chunk@.len() <= usize::MAX,
        ensures
            final(self)@ == old(self)@ + chunk@,
            final(self).announced() == old(self).announced(),
    {
        let mut i: usize = 0;
        while i < chunk.len()
            invariant
                i <= chunk@.len(),
                self.bytes@ == old(self)@ + chunk@.subrange(0, i as int),
                self.total == old(self).total,
                old(self)@.len() + chunk@.len() <= usize::MAX,
            decreases chunk@.len() - i,
        {
            self.bytes.push(chunk[i]);
            assert(chunk@.subrange(0, i + 1) == chunk@.subrange(0, i as int).push(chunk@[i as int]));
            i = i + 1;
        }
        assert(chunk@.subrange(0, chunk@.len() as int) == chunk@);
    }

    /// The number of bytes received so far.
    pub fn received(&self) -> (r: usize)
        ensures
            r == self@.len(),
    {
        self.bytes.len()
    }

    /// The size that the server announced, if it did.
    pub fn total(&self) -> (r: Option<u64>)
        ensures
            r == self.announced(),
    {
        self.total
    }

    /// The bytes received.
    pub fn into_bytes(self) -> (r: Vec<u8>)
        ensures
            r@ == self@,
    {
        self.bytes
    }
}

} // verus!
