//! Byte accounting of a streamed download.
use vstd::prelude::*;
use crate::error::ClientError;

verus! {

/// Sum of chunk sizes.
pub open spec fn total(s: Seq<nat>) -> nat
    decreases s.len(),
{
    if s.len() == 0 {
        0
    } else {
        total(s.drop_last()) + s.last()
    }
}

/// How the response body stream ended.
pub enum StreamEnd {
    /// The body was read to its end.
    Complete,
    /// The connection broke off mid-body.
    Interrupted(String),
}

/// The chunks written so far to the sink of one download.
pub struct Download {
    written: usize,
    chunks: Ghost<Seq<nat>>,
}

impl Download {
    /// Sizes of the chunks written to the sink, in order.
    pub closed spec fn chunk_sizes(&self) -> Seq<nat> {
        self.chunks@
    }

    /// Bytes counted so far.
    pub closed spec fn count(&self) -> nat {
        self.written as nat
    }

    /// The count is the sum of the chunks written.
    pub closed spec fn wf(&self) -> bool {
        self.written as nat == total(self.chunks@)
    }

    /// Nothing written yet.
    pub fn new() -> (r: Download)
        ensures
            r.wf(),
            r.chunk_sizes() == Seq::<nat>::empty(),
    {
        Download { written: 0, chunks: Ghost(Seq::empty()) }
    }

    /// Bytes written so far.
    pub fn written(&self) -> (r: usize)
        requires
            self.wf(),
        ensures
            r == total(self.chunk_sizes()),
    {
        self.written
    }

    /// Records that `n` more bytes were written to the sink. A count that would no longer fit
    /// in `usize` is a transport error and records nothing.
    pub fn record(&mut self, n: usize) -> (r: Result<(), ClientError>)
        requires
            old(self).wf(),
        ensures
            final(self).wf(),
            r is Ok <==> total(old(self).chunk_sizes()) + n <= usize::MAX,
            r is Ok ==> final(self).chunk_sizes() == old(self).chunk_sizes().push(n as nat),
            r is Err ==> r->Err_0 is Transport && *final(self) == *old(self),
    {
        if n > usize::MAX - self.written {
            return Err(ClientError::Transport(String::from_str("download size overflows usize")));
        }
        let ghost before = self.chunks@;
        self.written = self.written + n;
        self.chunks = Ghost(before.push(n as nat));
        assert(self.chunks@.drop_last() =~= before);
        Ok(())
    }

    /// The result of the download: on a complete body the byte count, which equals the total
    /// written to the sink; on an interrupted body a transport error, whatever was written.
    pub fn finish(&self, end: StreamEnd) -> (r: Result<usize, ClientError>)
        requires
            self.wf(),
        ensures
            end is Complete ==> r is Ok && r->Ok_0 == total(self.chunk_sizes()),
            end is Interrupted ==> r is Err && r->Err_0 is Transport && r->Err_0->Transport_0@
                == end->Interrupted_0@,
    {
        match end {
            StreamEnd::Complete => Ok(self.written),
            StreamEnd::Interrupted(m) => Err(ClientError::Transport(m)),
        }
    }
}

} // verus!
