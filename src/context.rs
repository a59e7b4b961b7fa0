//! A cursor over the bytes of a stream that keeps the bookkeeping needed to
//! report where a measurement failed.
use vstd::prelude::*;

use crate::duration::{max_nanos, Duration};
use crate::error::{ErrorKind, MP3DurationError};

verus! {

/// Reads a byte stream front to back, counting the bytes consumed.
///
/// It also holds the time measured so far, which grows by the duration of
/// each complete audio frame.
pub struct Context<'r> {
    reader: &'r [u8],
    bytes_read: usize,
    reached_eof: bool,
    duration: Duration,
}

impl<'r> Context<'r> {
    /// The whole stream.
    pub closed spec fn data(&self) -> Seq<u8> {
        self.reader@
    }

    /// The number of bytes consumed so far.
    pub closed spec fn offset(&self) -> nat {
        self.bytes_read as nat
    }

    /// Whether the last read or skip ran into the end of the stream.
    pub closed spec fn at_eof(&self) -> bool {
        self.reached_eof
    }

    /// The time measured so far.
    pub closed spec fn measured(&self) -> Duration {
        self.duration
    }

    /// The cursor never stands past the end of the stream.
    pub closed spec fn wf(&self) -> bool {
        &&& self.bytes_read <= self.reader@.len()
        &&& self.reader@.len() <= usize::MAX
    }

    /// The offset is a `usize`, and a well-formed cursor stands within a
    /// stream whose length is a `usize`.
    pub proof fn lemma_offset_bound(&self)
        ensures
            self.offset() <= usize::MAX,
            self.wf() ==> self.offset() <= self.data().len() <= usize::MAX,
    {
    }

    /// A cursor at the start of `reader`, with nothing measured.
    pub fn new(reader: &'r [u8]) -> (r: Self)
        ensures
            r.wf(),
            r.data() == reader@,
            r.offset() == 0,
            !r.at_eof(),
            r.measured()@ == 0,
    {
        assert(reader@.len() == reader.len());
        Context { reader, bytes_read: 0, duration: Duration::from_secs(0), reached_eof: false }
    }

    /// Fills `buffer` with the next bytes of the stream. Where fewer remain,
    /// nothing is consumed, `buffer` is left as it was and the error is
    /// `UnexpectedEOF` at the current offset.
    pub fn read_exact(&mut self, buffer: &mut [u8]) -> (r: Result<(), MP3DurationError>)
        requires
            old(self).wf(),
        ensures
            final(self).wf(),
            final(self).data() == old(self).data(),
            final(self).measured() == old(self).measured(),
            old(self).offset() + old(buffer)@.len() <= old(self).data().len() ==> {
                &&& r is Ok
                &&& final(buffer)@ == old(self).data().subrange(
                    old(self).offset() as int,
                    (old(self).offset() + old(buffer)@.len()) as int,
                )
                &&& final(self).offset() == old(self).offset() + old(buffer)@.len()
                &&& !final(self).at_eof()
            },
            old(self).offset() + old(buffer)@.len() > old(self).data().len() ==> {
                &&& r matches Err(e) && e.kind is UnexpectedEOF && e.offset == old(self).offset()
                    && e.at_duration == old(self).measured()
                &&& final(buffer)@ == old(buffer)@
                &&& final(self).offset() == old(self).offset()
                &&& final(self).at_eof()
            },
    {
        let len = buffer.len();
        let total = self.reader.len();
        if len > total - self.bytes_read {
            self.reached_eof = true;
            return Err(self.error(ErrorKind::UnexpectedEOF));
        }
        let mut i: usize = 0;
        while i < len
            invariant
                self.wf(),
                self.reader@ == old(self).data(),
                self.bytes_read == old(self).offset(),
                self.bytes_read + len <= total,
                total == self.reader@.len(),
                len == buffer@.len(),
                len == old(buffer)@.len(),
                i <= len,
                forall|j: int| 0 <= j < i ==> buffer@[j] == self.reader@[self.bytes_read + j],
            decreases len - i,
        {
            buffer[i] = self.reader[self.bytes_read + i];
            i = i + 1;
        }
        assert(buffer@ =~= self.reader@.subrange(
            self.bytes_read as int,
            (self.bytes_read + len) as int,
        ));
        self.bytes_read = self.bytes_read + len;
        self.reached_eof = false;
        Ok(())
    }

    /// Passes over the next `num_bytes` bytes of the stream. Where fewer
    /// remain, nothing is consumed and the error is `UnexpectedEOF` at the
    /// current offset.
    pub fn skip(&mut self, num_bytes: usize) -> (r: Result<(), MP3DurationError>)
        requires
            old(self).wf(),
        ensures
            final(self).wf(),
            final(self).data() == old(self).data(),
            final(self).measured() == old(self).measured(),
            old(self).offset() + num_bytes <= old(self).data().len() ==> {
                &&& r is Ok
                &&& final(self).offset() == old(self).offset() + num_bytes
                &&& !final(self).at_eof()
            },
            old(self).offset() + num_bytes > old(self).data().len() ==> {
                &&& r matches Err(e) && e.kind is UnexpectedEOF && e.offset == old(self).offset()
                    && e.at_duration == old(self).measured()
                &&& final(self).offset() == old(self).offset()
                &&& final(self).at_eof()
            },
    {
        if num_bytes > self.reader.len() - self.bytes_read {
            self.reached_eof = true;
            Err(self.error(ErrorKind::UnexpectedEOF))
        } else {
            self.bytes_read = self.bytes_read + num_bytes;
            self.reached_eof = false;
            Ok(())
        }
    }

    /// The time measured so far.
    pub fn duration(&self) -> (r: Duration)
        ensures
            r == self.measured(),
    {
        self.duration
    }

    /// Adds `d` to the time measured so far.
    pub fn add_duration(&mut self, d: Duration)
        requires
            old(self).wf(),
            old(self).measured()@ + d@ <= max_nanos(),
        ensures
            final(self).wf(),
            final(self).data() == old(self).data(),
            final(self).offset() == old(self).offset(),
            final(self).at_eof() == old(self).at_eof(),
            final(self).measured()@ == old(self).measured()@ + d@,
    {
        self.duration = self.duration.checked_add(d).unwrap();
    }

    /// Whether the last read or skip ran into the end of the stream.
    pub fn reached_eof(&self) -> (r: bool)
        ensures
            r == self.at_eof(),
    {
        self.reached_eof
    }

    /// An error of kind `e` at the current offset and measured duration.
    pub fn error(&self, e: ErrorKind) -> (r: MP3DurationError)
        ensures
            r.kind == e,
            r.offset == self.offset(),
            r.at_duration == self.measured(),
    {
        MP3DurationError { kind: e, offset: self.bytes_read, at_duration: self.duration }
    }
}

} // verus!
