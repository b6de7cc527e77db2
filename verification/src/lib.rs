//! Line-oriented iteration over buffered byte sources via `&[u8]` views
//! rather than validated `String`s.
//!
//! A splitter owns one reusable buffer: each fetch clears it, reads from the
//! underlying source up to and including the next line feed, strips the
//! delimiter (and a carriage return directly before it), and exposes the
//! content as a borrowed view that stays valid until the next fetch.
use vstd::prelude::*;

mod async_lines;
mod lines;
mod source;
mod util;

pub use crate::async_lines::AsyncByteLines;
pub use crate::lines::ByteLines;
pub use crate::lines::ByteLinesIter;
pub use crate::lines::ByteLinesReader;
pub use crate::source::LineSource;
pub use crate::source::MemSource;
pub use crate::source::ReadError;
pub use crate::util::handle_line;
pub use crate::util::lemma_consecutive_delimiters_yield_empty_line;
pub use crate::util::lemma_exhaustion_is_stable;
pub use crate::util::lemma_final_line_without_delimiter;
pub use crate::util::lemma_lone_carriage_return_preserved;
pub use crate::util::lemma_raw_line_len_bounds;
pub use crate::util::lemma_unterminated_line_kept_whole;
pub use crate::util::lemma_view_excludes_carriage_return_line_feed;
pub use crate::util::lemma_view_excludes_trailing_line_feed;
pub use crate::util::line_view;
pub use crate::util::raw_line;
pub use crate::util::raw_line_len;
pub use crate::util::rest_after_line;
pub use crate::util::strip_line;
pub use crate::util::stripped_len;
pub use crate::util::CARRIAGE_RETURN;
pub use crate::util::LINE_FEED;

verus! {

/// Creates a new line reader from a blocking line source.
pub fn from_std<B: LineSource>(reader: B) -> (r: ByteLines<B>)
    ensures
        r.stream() == reader.stream(),
        r.may_fail() == reader.may_fail(),
        r.current_line() == Seq::<u8>::empty(),
{
    ByteLines::new(reader)
}

/// Creates a new line reader from a suspending reader: the caller's loop
/// drives the two fetch halves around its own awaited read.
pub fn from_tokio<B>(reader: B) -> (r: AsyncByteLines<B>)
    ensures
        r.reader_view() == reader,
        r.current_line() == Seq::<u8>::empty(),
{
    AsyncByteLines::new(reader)
}

} // verus!
