//! Download accumulation with progress: the artifact body arrives in
//! transport-sized chunks, each chunk is appended to one in-memory buffer,
//! and after each chunk the cumulative byte count and the declared total are
//! reported. A missing content length is reported as total zero, meaning
//! "unknown", not "empty".

use vstd::prelude::*;

verus! {

/// Accumulates the streamed body of one download attempt.
pub struct DownloadProgress {
    buffer: Vec<u8>,
    total_bytes: u64,
}

impl DownloadProgress {
    /// The bytes received so far, in order.
    pub closed spec fn bytes(self) -> Seq<u8> {
        self.buffer@
    }

    /// The declared content length, or zero when it was absent (unknown).
    pub closed spec fn total(self) -> u64 {
        self.total_bytes
    }

    /// Start an empty download with the declared content length, if any.
    pub fn new(content_length: Option<u64>) -> (d: DownloadProgress)
        ensures
            d.bytes() == Seq::<u8>::empty(),
            d.total() == (match content_length {
                Some(t) => t,
                None => 0u64,
            }),
    {
        let total = match content_length {
            Some(t) => t,
            None => 0,
        };
        DownloadProgress { buffer: Vec::new(), total_bytes: total }
    }

    /// Append one received chunk and report cumulative progress: the bytes
    /// received so far and the (possibly zero, meaning unknown) total.
    pub fn push_chunk(&mut self, chunk: &Vec<u8>) -> (progress: (u64, u64))
        ensures
            final(self).bytes() == old(self).bytes() + chunk@,
            final(self).total() == old(self).total(),
            progress.0 as nat == final(self).bytes().len(),
            progress.1 == final(self).total(),
    {
        let ghost before = self.buffer@;
        let mut i: usize = 0;
        proof {
            assert(before + chunk@.take(0) =~= before);
        }
        while i < chunk.len()
            invariant
                0 <= i <= chunk@.len(),
                self.buffer@ == before + chunk@.take(i as int),
                self.total_bytes == old(self).total_bytes,
            decreases chunk@.len() - i,
        {
            self.buffer.push(chunk[i]);
            proof {
                assert(before + chunk@.take(i as int + 1) =~= (before + chunk@.take(
                    i as int,
                )).push(chunk@[i as int]));
            }
            i += 1;
        }
        proof {
            assert(before + chunk@.take(chunk@.len() as int) =~= before + chunk@);
        }
        (self.buffer.len() as u64, self.total_bytes)
    }

    /// How many bytes have been received so far.
    pub fn received(&self) -> (n: u64)
        ensures
            n as nat == self.bytes().len(),
    {
        self.buffer.len() as u64
    }

    /// Hand the whole accumulated body to the caller for a single write.
    pub fn into_bytes(self) -> (v: Vec<u8>)
        ensures
            v@ == self.bytes(),
    {
        self.buffer
    }
}

} // verus!
