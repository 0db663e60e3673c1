//! Chunk-by-chunk accumulation of a streamed response body.

use vstd::prelude::*;

verus! {

/// A growable buffer that accumulates a response body chunk by chunk.
///
/// Bytes are appended in exactly the order they arrive; the buffer never
/// reorders, drops or duplicates anything.
pub struct ByteBuffer {
    data: Vec<u8>,
}

impl View for ByteBuffer {
    type V = Seq<u8>;

    closed spec fn view(&self) -> Seq<u8> {
        self.data@
    }
}

impl ByteBuffer {
    /// An empty buffer.
    pub fn new() -> (r: ByteBuffer)
        ensures
            r@ == Seq::<u8>::empty(),
    {
        ByteBuffer { data: Vec::new() }
    }

    /// Appends one chunk at the end, keeping the order of arrival.
    pub fn push_chunk(&mut self, chunk: &[u8])
        ensures
            final(self)@ == old(self)@ + chunk@,
    {
        let n = chunk.len();
        let mut i: usize = 0;
        while i < n
            invariant
                n == chunk@.len(),
                i <= n,
                self.data@ == old(self)@ + chunk@.take(i as int),
            decreases n - i,
        {
            proof {
                assert((old(self)@ + chunk@.take(i as int)).push(chunk@[i as int]) =~= old(
                    self,
                )@ + chunk@.take(i + 1));
            }
            self.data.push(chunk[i]);
            i = i + 1;
        }
        proof {
            assert(chunk@.take(n as int) =~= chunk@);
        }
    }

    /// How many bytes have been accumulated.
    pub fn len(&self) -> (n: usize)
        ensures
            n == self@.len(),
    {
        self.data.len()
    }

    /// Hands the accumulated bytes over, in order.
    pub fn into_vec(self) -> (v: Vec<u8>)
        ensures
            v@ == self@,
    {
        self.data
    }
}

} // verus!
