//! Backward line-offset scanning for text buffers.
//!
//! Given a byte buffer, a starting offset and a caller-maintained line
//! counter, [`lines_bwd`] walks backward toward the start of the buffer,
//! decrementing the counter for every line feed it consumes, and stops just
//! past a line feed once the counter has reached the caller's stop value.
//! The returned offset is therefore at the start of a line (or 0).
//!
//! The crate offers several interchangeable backends: a byte-at-a-time
//! scalar scanner, which is the reference semantics, and chunked scanners
//! that count line feeds over fixed-size blocks and defer to the scalar
//! scanner for exact resolution. Every backend is proved to return exactly
//! the same result as the scalar reference.

use vstd::prelude::*;

pub mod dispatch;
pub mod scalar;
pub mod scan;
pub mod vector;

verus! {

/// Caller-supplied line counters are signed: the engine only ever
/// decrements them and never validates them against the buffer.
pub type CoordType = i32;

/// What one full backward scan over `b` returns, starting from `offset`
/// (clamped to the buffer length) with line counter `line` and stop value
/// `line_stop`.
pub open spec fn lines_bwd_spec(b: Seq<u8>, offset: int, line: int, line_stop: int) -> (int, int) {
    scan::scan_bwd(b, 0, if offset <= b.len() { offset } else { b.len() as int }, line, line_stop)
}

/// Starting from `offset` in `haystack` with a current line index of
/// `line`, seeks backward to the `line_stop`-nth line and returns the new
/// offset and the line index at that point.
///
/// The scan moves backward even if `line` is already at `line_stop`, which
/// lets a caller ensure (or test) whether `offset` is at a line start: the
/// returned offset is past a line feed, or 0.
///
/// Offsets beyond the buffer are clamped to its length, and a stop value
/// ahead of `line` behaves as if it were `line` itself. The wide chunked
/// tier serves every machine here; a host that probes its machine and
/// caches a ranked choice does so through [`dispatch::DispatchCache`] and
/// [`dispatch::lines_bwd_with`], which return bit-identical results for
/// every backend.
pub fn lines_bwd(
    haystack: &[u8],
    offset: usize,
    line: CoordType,
    line_stop: CoordType,
) -> (r: (usize, CoordType))
    ensures
        (r.0 as int, r.1 as int) == lines_bwd_spec(
            haystack@,
            offset as int,
            line as int,
            line_stop as int,
        ),
        r.0 <= offset,
        r.1 <= line,
{
    proof {
        lemma_lines_bwd_monotonic(haystack@, offset as int, line as int, line_stop as int);
    }
    dispatch::lines_bwd_with(dispatch::Backend::Wide, haystack, offset, line, line_stop)
}

/// The scan only moves toward the buffer start and only lowers the line
/// counter: the returned offset is at most the given one, and within the
/// buffer; the returned counter is at most the given one.
pub proof fn lemma_lines_bwd_monotonic(b: Seq<u8>, offset: int, line: int, line_stop: int)
    requires
        0 <= offset,
    ensures
        0 <= lines_bwd_spec(b, offset, line, line_stop).0 <= offset,
        lines_bwd_spec(b, offset, line, line_stop).0 <= b.len(),
        lines_bwd_spec(b, offset, line, line_stop).1 <= line,
{
    let end = if offset <= b.len() {
        offset
    } else {
        b.len() as int
    };
    scan::lemma_scan_bwd_monotonic(b, 0, end, line, line_stop);
}

/// Invoking the scan again with its own result and the same stop value
/// returns that result unchanged once the counter is at or below the stop
/// value: the returned offset already sits at a line start (or 0).
pub proof fn lemma_lines_bwd_idempotent(b: Seq<u8>, offset: int, line: int, line_stop: int)
    requires
        0 <= offset,
        lines_bwd_spec(b, offset, line, line_stop).1 <= line_stop,
    ensures
        ({
            let r = lines_bwd_spec(b, offset, line, line_stop);
            lines_bwd_spec(b, r.0, r.1, line_stop) == r
        }),
{
    let end = if offset <= b.len() {
        offset
    } else {
        b.len() as int
    };
    scan::lemma_scan_bwd_monotonic(b, 0, end, line, line_stop);
    scan::lemma_scan_bwd_idempotent(b, 0, end, line, line_stop);
}

/// Scanning from offset 0 examines no byte at all: the input pair comes
/// back unchanged.
pub proof fn lemma_lines_bwd_at_start(b: Seq<u8>, line: int, line_stop: int)
    ensures
        lines_bwd_spec(b, 0, line, line_stop) == (0int, line),
{
}

/// A stop value ahead of the current line counter is clamped: the scan
/// behaves exactly as if the caller had passed `line` itself, seeking to
/// the start of the current line.
pub proof fn lemma_lines_bwd_clamp(b: Seq<u8>, offset: int, line: int, line_stop: int)
    requires
        0 <= offset,
        line_stop > line,
    ensures
        lines_bwd_spec(b, offset, line, line_stop) == lines_bwd_spec(b, offset, line, line),
{
    let end = if offset <= b.len() {
        offset
    } else {
        b.len() as int
    };
    scan::lemma_scan_bwd_clamp(b, 0, end, line, line_stop);
}

/// The shape of every result: the offset is 0 or just past a line feed
/// whose consumption was refused because the counter had reached the stop
/// value, and the counter dropped by exactly the number of line feeds
/// between the returned offset and the (clamped) starting offset.
pub proof fn lemma_lines_bwd_line_start(b: Seq<u8>, offset: int, line: int, line_stop: int)
    requires
        0 <= offset <= b.len(),
    ensures
        ({
            let r = lines_bwd_spec(b, offset, line, line_stop);
            &&& r.0 == 0 || (b[r.0 - 1] == scan::LINE_FEED && r.1 <= line_stop)
            &&& r.1 == line - scan::lf_count(b, r.0, offset)
        }),
{
    scan::lemma_scan_bwd_characterize(b, 0, offset, line, line_stop);
}

} // verus!
