//! The line splitter bound to a suspending byte source. The one read that
//! may suspend cannot run inside the library, so a fetch is split into two
//! synchronous halves: `begin_fetch` clears and hands out the reusable
//! buffer, the caller's loop awaits the source's read-until-delimiter into
//! it, and `finish_fetch` classifies the outcome and stores the stripped
//! view. Everything but the read itself stays here, verified.
use vstd::prelude::*;

use crate::source::ReadError;
use crate::util::handle_line;
use crate::util::stripped_len;

verus! {

/// Provides async iteration over bytes of input, split by line.
///
/// The reader is held opaquely: the library never touches it, it only keeps
/// it together with the reusable buffer and the view of the fetched line.
/// The caller's loop borrows the reader with `reader`, performs the one
/// suspending read between `begin_fetch` and `finish_fetch`, and borrows
/// the stripped view with `line`.
pub struct AsyncByteLines<B> {
    buffer: Vec<u8>,
    reader: B,
}

impl<B> AsyncByteLines<B> {
    /// The suspending reader this splitter holds.
    pub closed spec fn reader_view(self) -> B {
        self.reader
    }

    /// The view of the line fetched last: empty before the first fetch,
    /// after end-of-stream and after a failure.
    pub closed spec fn current_line(self) -> Seq<u8> {
        self.buffer@
    }

    /// Constructs a new `AsyncByteLines` from an input reader.
    pub fn new(buf: B) -> (r: Self)
        ensures
            r.reader_view() == buf,
            r.current_line() == Seq::<u8>::empty(),
    {
        Self { buffer: Vec::new(), reader: buf }
    }

    /// Borrows the reader, so the caller can drive the suspending read.
    pub fn reader(&mut self) -> (r: &mut B)
        ensures
            *r == old(self).reader_view(),
            final(self).reader_view() == *final(r),
            final(self).current_line() == old(self).current_line(),
    {
        &mut self.reader
    }

    /// Begins a fetch: hands out the reusable internal buffer, cleared, for
    /// the caller to append exactly one read into.
    pub fn begin_fetch(&mut self) -> (r: Vec<u8>)
        ensures
            r@ == Seq::<u8>::empty(),
            final(self).reader_view() == old(self).reader_view(),
            final(self).current_line() == Seq::<u8>::empty(),
    {
        self.buffer.clear();
        let mut handed: Vec<u8> = Vec::new();
        core::mem::swap(&mut self.buffer, &mut handed);
        handed
    }

    /// Finishes a fetch: takes the buffer back, together with the outcome of
    /// the read that filled it — a count of appended bytes, or the source's
    /// failure — and classifies it exactly as the blocking splitter does:
    /// end-of-stream on a zero count, a failure passed through verbatim, or
    /// the visible length of the line, whose stripped view is stored and
    /// borrowed with `line` until the next fetch.
    pub fn finish_fetch(&mut self, input: Result<usize, ReadError>, buffer: Vec<u8>) -> (r: Option<
        Result<usize, ReadError>,
    >)
        requires
            input matches Ok(n) ==> n <= buffer@.len(),
        ensures
            final(self).reader_view() == old(self).reader_view(),
            input matches Err(e) ==> r == Some(Err::<usize, ReadError>(e))
                && final(self).current_line() == Seq::<u8>::empty(),
            input matches Ok(n) ==> n == 0 ==> r is None && final(self).current_line()
                == Seq::<u8>::empty(),
            input matches Ok(n) ==> n > 0 ==> {
                &&& r == Some(Ok::<usize, ReadError>(stripped_len(buffer@, n as int) as usize))
                &&& final(self).current_line() == buffer@.take(stripped_len(buffer@, n as int))
            },
    {
        self.buffer = buffer;
        match handle_line(input, &self.buffer) {
            None => {
                self.buffer.clear();
                None
            },
            Some(Err(e)) => {
                self.buffer.clear();
                Some(Err(e))
            },
            Some(Ok(n)) => {
                self.buffer.truncate(n);
                Some(Ok(n))
            },
        }
    }

    /// Borrows the view of the line fetched last.
    pub fn line(&self) -> (r: &[u8])
        ensures
            r@ == self.current_line(),
    {
        self.buffer.as_slice()
    }
}

} // verus!
