//! The byte-source capability a splitter drives: a read-until-delimiter
//! operation over a stream of bytes, and an in-memory source implementing it.
use vstd::prelude::*;

use crate::util::lemma_raw_line_len_terminated;
use crate::util::lemma_raw_line_len_unterminated;
use crate::util::raw_line;
use crate::util::raw_line_len;
use crate::util::rest_after_line;
use crate::util::LINE_FEED;

verus! {

/// The one failure a fetch can surface: whatever the byte source reported,
/// passed through verbatim and never interpreted.
#[derive(Debug)]
pub struct ReadError {
    /// The source's own description of the failure.
    pub message: String,
}

/// A blocking byte source. One read call appends bytes to a caller-supplied
/// buffer up to and including the next line feed, and returns the count
/// appended; a zero count signals exactly the end of the stream. A failure
/// is the source's own report, and what the source holds afterwards is the
/// source's responsibility, not the caller's.
pub trait LineSource {
    /// The bytes the source still holds, in the order a reader will see them.
    spec fn stream(&self) -> Seq<u8>;

    /// Whether the next read call may report a failure.
    spec fn may_fail(&self) -> bool;

    /// Reads bytes up to and including the next line feed, appending them to
    /// `buf`, and returns how many were appended; zero exactly at the end of
    /// the stream.
    fn read_until_line_feed(&mut self, buf: &mut Vec<u8>) -> (r: Result<usize, ReadError>)
        ensures
            r matches Ok(n) ==> {
                &&& n == raw_line_len(old(self).stream())
                &&& final(buf)@ == old(buf)@ + raw_line(old(self).stream())
                &&& final(self).stream() == rest_after_line(old(self).stream())
                &&& final(self).may_fail() == old(self).may_fail()
            },
            r matches Err(_) ==> old(self).may_fail(),
    ;
}

/// An in-memory byte source: serves lines out of an owned buffer of bytes.
/// One failure can be staged to exercise a consumer's failure path; the
/// staged failure leaves the data unread, so a retry serves the same line.
pub struct MemSource {
    data: Vec<u8>,
    pos: usize,
    fail_next: bool,
}

impl MemSource {
    #[verifier::type_invariant]
    spec fn well_formed(self) -> bool {
        self.pos <= self.data@.len()
    }

    /// A source that will serve exactly the bytes of `data`, without failing.
    pub fn new(data: Vec<u8>) -> (r: MemSource)
        ensures
            r.stream() == data@,
            !r.may_fail(),
    {
        MemSource { data, pos: 0, fail_next: false }
    }

    /// Stages one failure: the next read call reports it instead of reading.
    pub fn inject_failure(&mut self)
        ensures
            final(self).stream() == old(self).stream(),
            final(self).may_fail(),
    {
        proof {
            use_type_invariant(&*self);
        }
        self.fail_next = true;
    }
}

impl LineSource for MemSource {
    closed spec fn stream(&self) -> Seq<u8> {
        self.data@.skip(self.pos as int)
    }

    closed spec fn may_fail(&self) -> bool {
        self.fail_next
    }

    fn read_until_line_feed(&mut self, buf: &mut Vec<u8>) -> (r: Result<usize, ReadError>)
        ensures
            r matches Err(_) <==> old(self).may_fail(),
            r matches Err(_) ==> {
                &&& final(self).stream() == old(self).stream()
                &&& !final(self).may_fail()
                &&& final(buf)@ == old(buf)@
            },
    {
        proof {
            use_type_invariant(&*self);
        }
        if self.fail_next {
            self.fail_next = false;
            return Err(ReadError { message: "staged failure".to_string() });
        }
        let ghost data0 = self.data@;
        let ghost buf0 = buf@;
        let ghost s = self.data@.skip(self.pos as int);
        let start = self.pos;
        let mut done = false;
        while self.pos < self.data.len() && !done
            invariant
                start <= self.pos <= data0.len(),
                self.data@ == data0,
                !self.fail_next,
                buf@ == buf0 + data0.subrange(start as int, self.pos as int),
                !done ==> forall|j: int| start <= j < self.pos ==> data0[j] != LINE_FEED,
                done ==> self.pos > start && data0[self.pos - 1] == LINE_FEED && forall|j: int|
                    start <= j < self.pos - 1 ==> data0[j] != LINE_FEED,
            decreases data0.len() - self.pos,
        {
            let b = self.data[self.pos];
            buf.push(b);
            self.pos = self.pos + 1;
            if b == LINE_FEED {
                done = true;
            }
        }
        let n = self.pos - start;
        proof {
            if done {
                assert(s[n - 1] == data0[self.pos - 1]);
                assert forall|j: int| 0 <= j < n - 1 implies s[j] != LINE_FEED by {
                    assert(data0[start + j] != LINE_FEED);
                }
                lemma_raw_line_len_terminated(s, n as int);
            } else {
                assert forall|j: int| 0 <= j < s.len() implies s[j] != LINE_FEED by {
                    assert(data0[start + j] != LINE_FEED);
                }
                lemma_raw_line_len_unterminated(s);
            }
            assert(buf@ =~= buf0 + raw_line(s));
            assert(self.data@.skip(self.pos as int) =~= rest_after_line(s));
        }
        Ok(n)
    }
}

} // verus!
