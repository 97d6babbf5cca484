//! An in-memory byte source that is read front to back.

use vstd::prelude::*;
use crate::error::IoFailure;

verus! {

/// Bytes held in memory together with a read position. Reading hands out the
/// bytes after the position and moves it forward; nothing is ever read twice.
pub struct ByteSource {
    data: Vec<u8>,
    pos: usize,
}

impl ByteSource {
    #[verifier::type_invariant]
    spec fn position_in_bounds(&self) -> bool {
        self.pos <= self.data@.len()
    }

    /// The bytes that have not been read yet, in order.
    pub closed spec fn remaining(&self) -> Seq<u8> {
        self.data@.skip(self.pos as int)
    }

    /// A source that will yield exactly `data`.
    pub fn new(data: Vec<u8>) -> (source: Self)
        ensures
            source.remaining() == data@,
    {
        ByteSource { data, pos: 0 }
    }

    /// How many bytes are left to read.
    pub fn remaining_len(&self) -> (n: usize)
        ensures
            n == self.remaining().len(),
    {
        proof {
            use_type_invariant(self);
        }
        self.data.len() - self.pos
    }

    /// Reads exactly `n` bytes. With fewer than `n` bytes left the read fails
    /// and leaves the source exhausted.
    pub fn read_exact(&mut self, n: usize) -> (r: Result<Vec<u8>, IoFailure>)
        ensures
            n <= old(self).remaining().len() ==> r is Ok && r->Ok_0@ == old(
                self,
            ).remaining().take(n as int) && final(self).remaining() == old(
                self,
            ).remaining().skip(n as int),
            n > old(self).remaining().len() ==> r == Err::<Vec<u8>, IoFailure>(
                IoFailure::UnexpectedEof,
            ) && final(self).remaining() == Seq::<u8>::empty(),
    {
        proof {
            use_type_invariant(&*self);
        }
        let ghost before = self.remaining();
        let start: usize = self.pos;
        if n > self.data.len() - start {
            self.pos = self.data.len();
            assert(self.remaining() =~= Seq::<u8>::empty());
            return Err(IoFailure::UnexpectedEof);
        }
        let mut out: Vec<u8> = Vec::with_capacity(n);
        let mut i: usize = 0;
        while i < n
            invariant
                i <= n,
                start + n <= self.data@.len() <= usize::MAX,
                out@ =~= self.data@.subrange(start as int, start + i),
            decreases n - i,
        {
            out.push(self.data[start + i]);
            i += 1;
        }
        self.pos = start + n;
        assert(out@ =~= before.take(n as int));
        assert(self.remaining() =~= before.skip(n as int));
        Ok(out)
    }
}

} // verus!
