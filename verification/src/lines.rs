//! The line splitter bound to a blocking byte source: a borrowing fetch
//! operation, an owned-copy iterator shape, and constructor sugar.
use vstd::prelude::*;

use crate::source::LineSource;
use crate::source::ReadError;
use crate::util::handle_line;
use crate::util::lemma_raw_line_len_bounds;
use crate::util::line_view;
use crate::util::raw_line;
use crate::util::rest_after_line;
use vstd::slice::slice_to_vec;

verus! {

/// Provides iteration over bytes of input, split by line.
///
/// The splitter owns one reusable buffer: a fetch clears it, reads from the
/// source through the next line feed, strips the delimiter (and a carriage
/// return directly before it), and leaves the visible content in the buffer.
/// `next` reports what the fetch classified; `line` borrows the content,
/// which stays valid until the next fetch on the same splitter.
pub struct ByteLines<B> where B: LineSource {
    buffer: Vec<u8>,
    reader: B,
}

impl<B> ByteLines<B> where B: LineSource {
    /// The bytes the splitter has not yet served as lines.
    pub closed spec fn stream(self) -> Seq<u8> {
        self.reader.stream()
    }

    /// Whether the next fetch may surface a source failure.
    pub closed spec fn may_fail(self) -> bool {
        self.reader.may_fail()
    }

    /// The view of the line fetched last: empty before the first fetch,
    /// after end-of-stream and after a failure.
    pub closed spec fn current_line(self) -> Seq<u8> {
        self.buffer@
    }

    /// Constructs a new `ByteLines` from an input source.
    pub fn new(buf: B) -> (r: Self)
        ensures
            r.stream() == buf.stream(),
            r.may_fail() == buf.may_fail(),
            r.current_line() == Seq::<u8>::empty(),
    {
        Self { buffer: Vec::new(), reader: buf }
    }

    /// Fetches the next line: clears the internal buffer, reads from the
    /// source through the next line feed, and strips the delimiter. Returns
    /// the visible length of the line now held in the buffer, `None` exactly
    /// at the end of the stream, or a source failure passed through
    /// verbatim. The view itself is borrowed with `line` and is invalidated
    /// by the next fetch on this splitter.
    pub fn next(&mut self) -> (r: Option<Result<usize, ReadError>>)
        ensures
            r matches Some(Ok(n)) ==> {
                &&& old(self).stream().len() > 0
                &&& n == line_view(old(self).stream()).len()
                &&& final(self).current_line() == line_view(old(self).stream())
                &&& final(self).stream() == rest_after_line(old(self).stream())
                &&& final(self).may_fail() == old(self).may_fail()
            },
            r is None ==> {
                &&& old(self).stream().len() == 0
                &&& final(self).stream() == old(self).stream()
                &&& final(self).may_fail() == old(self).may_fail()
                &&& final(self).current_line() == Seq::<u8>::empty()
            },
            r matches Some(Err(_)) ==> {
                &&& old(self).may_fail()
                &&& final(self).current_line() == Seq::<u8>::empty()
            },
            old(self).stream().len() == 0 && !old(self).may_fail() ==> r is None,
            old(self).stream().len() > 0 && !old(self).may_fail() ==> r matches Some(Ok(_)),
    {
        let ghost s = self.reader.stream();
        self.buffer.clear();
        let res = self.reader.read_until_line_feed(&mut self.buffer);
        proof {
            lemma_raw_line_len_bounds(s);
            if res matches Ok(n) {
                assert(self.buffer@ =~= raw_line(s));
            }
        }
        match handle_line(res, &self.buffer) {
            None => {
                proof {
                    assert(rest_after_line(s) =~= s);
                    assert(self.buffer@ =~= Seq::<u8>::empty());
                }
                None
            },
            Some(Err(e)) => {
                self.buffer.clear();
                Some(Err(e))
            },
            Some(Ok(n)) => {
                self.buffer.truncate(n);
                proof {
                    assert(final(self).current_line() == line_view(s));
                }
                Some(Ok(n))
            },
        }
    }

    /// Borrows the view of the line fetched last.
    pub fn line(&self) -> (r: &[u8])
        ensures
            r@ == self.current_line(),
    {
        self.buffer.as_slice()
    }

    /// Converts into an owned-copy iterator shape, at the cost of an
    /// allocation per line.
    pub fn into_iter(self) -> (r: ByteLinesIter<B>)
        ensures
            r.stream() == self.stream(),
            r.may_fail() == self.may_fail(),
            !r.failed(),
    {
        ByteLinesIter { inner: self, failed: false }
    }
}

/// The owned-copy iterator shape over a `ByteLines`: each step fetches one
/// line and copies its view into an independently owned buffer. A failure is
/// yielded once, as the terminal item; afterwards the sequence has ended.
pub struct ByteLinesIter<B> where B: LineSource {
    inner: ByteLines<B>,
    failed: bool,
}

impl<B> ByteLinesIter<B> where B: LineSource {
    /// The bytes not yet served as lines.
    pub closed spec fn stream(self) -> Seq<u8> {
        self.inner.stream()
    }

    /// Whether the next fetch may surface a source failure.
    pub closed spec fn may_fail(self) -> bool {
        self.inner.may_fail()
    }

    /// Whether a failure has been yielded; the sequence has ended then.
    pub closed spec fn failed(self) -> bool {
        self.failed
    }

    /// Retrieves the next line as an independently owned copy of the view
    /// the wrapped splitter yields, the end-of-sequence signal `None`, or
    /// the terminal failure.
    pub fn next(&mut self) -> (r: Option<Result<Vec<u8>, ReadError>>)
        ensures
            r matches Some(Ok(v)) ==> {
                &&& !old(self).failed()
                &&& !final(self).failed()
                &&& old(self).stream().len() > 0
                &&& v@ == line_view(old(self).stream())
                &&& final(self).stream() == rest_after_line(old(self).stream())
                &&& final(self).may_fail() == old(self).may_fail()
            },
            r is None && !old(self).failed() ==> {
                &&& old(self).stream().len() == 0
                &&& final(self).stream() == old(self).stream()
                &&& final(self).may_fail() == old(self).may_fail()
                &&& !final(self).failed()
            },
            r matches Some(Err(_)) ==> old(self).may_fail() && final(self).failed(),
            old(self).failed() ==> r is None && *final(self) == *old(self),
            !old(self).failed() && !old(self).may_fail() ==> (r is None <==> old(self).stream().len()
                == 0),
    {
        if self.failed {
            return None;
        }
        match self.inner.next() {
            None => None,
            Some(Err(e)) => {
                self.failed = true;
                Some(Err(e))
            },
            Some(Ok(_)) => Some(Ok(slice_to_vec(self.inner.line()))),
        }
    }
}

/// Represents anything which can provide iterators of byte lines.
pub trait ByteLinesReader: LineSource + Sized {
    /// Returns a splitter used to iterate the lines of this source.
    fn byte_lines(self) -> (r: ByteLines<Self>)
        ensures
            r.stream() == self.stream(),
            r.may_fail() == self.may_fail(),
            r.current_line() == Seq::<u8>::empty(),
    ;
}

/// Blanket implementation for every line source.
impl<B: LineSource> ByteLinesReader for B {
    fn byte_lines(self) -> (r: ByteLines<B>) {
        crate::from_std(self)
    }
}

} // verus!
