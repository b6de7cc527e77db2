//! The delimiter handler: classifies the outcome of one read call against the
//! buffer it filled, and the specification model of line splitting.
use vstd::prelude::*;

verus! {

/// The line delimiter byte.
pub const LINE_FEED: u8 = 10;

/// Stripped together with a line feed that immediately follows it.
pub const CARRIAGE_RETURN: u8 = 13;

/// Visible content length after one read call appended `n` bytes to `buf`:
/// a trailing line feed is dropped, and a carriage return directly before
/// that line feed is dropped with it.
pub open spec fn stripped_len(buf: Seq<u8>, n: int) -> int {
    if n > 0 && buf[n - 1] == LINE_FEED {
        if n > 1 && buf[n - 2] == CARRIAGE_RETURN {
            n - 2
        } else {
            n - 1
        }
    } else {
        n
    }
}

/// The visible content of the raw line `l`: its prefix of `stripped_len` bytes.
pub open spec fn strip_line(l: Seq<u8>) -> Seq<u8> {
    l.take(stripped_len(l, l.len() as int))
}

/// How many bytes one read call consumes from the stream `s`: everything up
/// to and including the first line feed, or all of `s` when it has none.
pub open spec fn raw_line_len(s: Seq<u8>) -> int
    decreases s.len(),
{
    if s.len() == 0 {
        0
    } else if s[0] == LINE_FEED {
        1
    } else {
        1 + raw_line_len(s.skip(1))
    }
}

/// The bytes one read call consumes from the stream `s`, delimiter included.
pub open spec fn raw_line(s: Seq<u8>) -> Seq<u8> {
    s.take(raw_line_len(s))
}

/// The line view one fetch yields on the stream `s`.
pub open spec fn line_view(s: Seq<u8>) -> Seq<u8> {
    strip_line(raw_line(s))
}

/// What remains of the stream `s` after one fetch.
pub open spec fn rest_after_line(s: Seq<u8>) -> Seq<u8> {
    s.skip(raw_line_len(s))
}

/// The number of bytes one fetch consumes never exceeds the stream, and is
/// positive exactly when the stream still has bytes.
pub proof fn lemma_raw_line_len_bounds(s: Seq<u8>)
    ensures
        0 <= raw_line_len(s) <= s.len(),
        s.len() > 0 ==> 1 <= raw_line_len(s),
    decreases s.len(),
{
    if s.len() > 0 && s[0] != LINE_FEED {
        lemma_raw_line_len_bounds(s.skip(1));
    }
}

/// A scan that met its first line feed at position `n - 1` has measured the
/// raw line: the fetch consumes exactly those `n` bytes.
pub proof fn lemma_raw_line_len_terminated(s: Seq<u8>, n: int)
    requires
        0 < n <= s.len(),
        s[n - 1] == LINE_FEED,
        forall|j: int| 0 <= j < n - 1 ==> s[j] != LINE_FEED,
    ensures
        raw_line_len(s) == n,
    decreases s.len(),
{
    if s[0] == LINE_FEED {
        if n > 1 {
            assert(s[0] != LINE_FEED);
        }
    } else {
        let t = s.skip(1);
        assert(t[n - 2] == LINE_FEED);
        assert forall|j: int| 0 <= j < n - 2 implies t[j] != LINE_FEED by {
            assert(s[j + 1] != LINE_FEED);
        }
        lemma_raw_line_len_terminated(t, n - 1);
    }
}

/// A scan that found no line feed at all has consumed the whole stream.
pub proof fn lemma_raw_line_len_unterminated(s: Seq<u8>)
    requires
        forall|j: int| 0 <= j < s.len() ==> s[j] != LINE_FEED,
    ensures
        raw_line_len(s) == s.len(),
    decreases s.len(),
{
    if s.len() > 0 {
        assert(s[0] != LINE_FEED);
        let t = s.skip(1);
        assert forall|j: int| 0 <= j < t.len() implies t[j] != LINE_FEED by {
            assert(s[j + 1] != LINE_FEED);
        }
        lemma_raw_line_len_unterminated(t);
    }
}

/// An input ending in a line feed yields a view that excludes that line
/// feed: the view is a proper prefix of the input.
pub proof fn lemma_view_excludes_trailing_line_feed(l: Seq<u8>)
    requires
        l.len() > 0,
        l[l.len() - 1] == LINE_FEED,
    ensures
        strip_line(l).len() < l.len(),
        strip_line(l) == l.take(strip_line(l).len() as int),
{
}

/// An input ending in a carriage return followed by a line feed yields a
/// view that excludes both bytes.
pub proof fn lemma_view_excludes_carriage_return_line_feed(l: Seq<u8>)
    requires
        l.len() >= 2,
        l[l.len() - 1] == LINE_FEED,
        l[l.len() - 2] == CARRIAGE_RETURN,
    ensures
        strip_line(l) == l.take(l.len() - 2),
{
}

/// A lone carriage return, one not followed by a line feed, is preserved in
/// the view.
pub proof fn lemma_lone_carriage_return_preserved(l: Seq<u8>, i: int)
    requires
        0 <= i < l.len(),
        l[i] == CARRIAGE_RETURN,
        i + 1 == l.len() || l[i + 1] != LINE_FEED,
    ensures
        i < strip_line(l).len(),
        strip_line(l)[i] == CARRIAGE_RETURN,
{
}

/// Nothing is stripped from a line that does not end in a line feed.
pub proof fn lemma_unterminated_line_kept_whole(l: Seq<u8>)
    requires
        l.len() == 0 || l[l.len() - 1] != LINE_FEED,
    ensures
        strip_line(l) =~= l,
{
}

/// End-of-stream is stable: a fetch on an exhausted stream consumes nothing
/// and leaves it exhausted, so every subsequent fetch reports it again.
pub proof fn lemma_exhaustion_is_stable(s: Seq<u8>)
    requires
        s.len() == 0,
    ensures
        raw_line_len(s) == 0,
        rest_after_line(s) =~= s,
{
}

/// A delimiter standing directly at the front of the stream is consumed as
/// one empty line, not skipped: the fetch yields an empty view and advances
/// past exactly that one byte. Two consecutive delimiters in a stream thus
/// yield an empty view between them.
pub proof fn lemma_consecutive_delimiters_yield_empty_line(s: Seq<u8>)
    requires
        s.len() > 0,
        s[0] == LINE_FEED,
    ensures
        raw_line_len(s) == 1,
        line_view(s) =~= Seq::<u8>::empty(),
        rest_after_line(s) =~= s.skip(1),
{
    let l = raw_line(s);
    assert(l.len() == 1);
    assert(l[0] == LINE_FEED);
}

/// A final line with no trailing delimiter is still yielded once, in full:
/// a stream without a line feed is consumed entirely and its view is the
/// stream itself, with nothing left behind.
pub proof fn lemma_final_line_without_delimiter(s: Seq<u8>)
    requires
        s.len() > 0,
        forall|j: int| 0 <= j < s.len() ==> s[j] != LINE_FEED,
    ensures
        raw_line_len(s) == s.len(),
        line_view(s) =~= s,
        rest_after_line(s).len() == 0,
{
    lemma_raw_line_len_unterminated(s);
    assert(raw_line(s) =~= s);
    lemma_unterminated_line_kept_whole(raw_line(s));
}

/// Handles the outcome of one read call that appended bytes to `buffer`:
/// end-of-stream on a zero count, a failure passed through verbatim, or the
/// visible content length of the line now sitting at the front of `buffer`.
pub fn handle_line<E>(input: Result<usize, E>, buffer: &Vec<u8>) -> (r: Option<Result<usize, E>>)
    requires
        input matches Ok(n) ==> n <= buffer@.len(),
    ensures
        input matches Err(e) ==> r == Some(Err::<usize, E>(e)),
        input matches Ok(n) ==> n == 0 ==> r is None,
        input matches Ok(n) ==> n > 0 ==> r == Some(Ok::<usize, E>(
            stripped_len(buffer@, n as int) as usize,
        )),
{
    match input {
        // short circuit on error
        Err(e) => Some(Err(e)),
        Ok(n) => {
            if n == 0 {
                // no input, done
                None
            } else {
                // always "pop" the delimiter
                let mut m = n;
                if buffer[m - 1] == LINE_FEED {
                    m -= 1;
                    // also "pop" a carriage return right before it
                    if m > 0 && buffer[m - 1] == CARRIAGE_RETURN {
                        m -= 1;
                    }
                }
                Some(Ok(m))
            }
        },
    }
}

} // verus!
