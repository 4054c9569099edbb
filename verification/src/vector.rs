//! Chunked backends: the vector-style scan tiers.
//!
//! A chunked backend processes the buffer backward in fixed-size blocks.
//! Per block it only computes an aggregate line-feed count (the stand-in
//! for a SIMD compare-and-reduce over the block); if consuming the whole
//! block would bring the line counter to or below the stop value, the block
//! is left unconsumed and the scalar scanner resolves the exact boundary.
//! An alignment prologue first scalar-scans the unaligned tail so block
//! boundaries fall at fixed positions relative to the buffer start.
//!
//! Two tiers exist, mirroring a wide (four-register) and a narrow
//! (one-register) vector width per step; both are proved to return exactly
//! the scalar scanner's result.

use vstd::prelude::*;

use crate::CoordType;
use crate::scalar;
use crate::scan;

verus! {

/// Block size of the wide tier's big step, in bytes.
pub const WIDE_BLOCK: usize = 128;

/// Block size of the wide tier's small step, and its alignment, in bytes.
pub const WIDE_ALIGN: usize = 32;

/// Block size of the narrow tier's big step, in bytes.
pub const NARROW_BLOCK: usize = 64;

/// Block size of the narrow tier's small step, and its alignment, in bytes.
pub const NARROW_ALIGN: usize = 16;

/// Counts the line feeds in `haystack[lo..hi]`: the scalar stand-in for a
/// vector compare-and-reduce over one block.
pub fn count_line_feeds(haystack: &[u8], lo: usize, hi: usize) -> (n: usize)
    requires
        lo <= hi <= haystack@.len(),
    ensures
        n as int == scan::lf_count(haystack@, lo as int, hi as int),
        n <= hi - lo,
{
    let mut n: usize = 0;
    let mut i = lo;
    while i < hi
        invariant
            lo <= i <= hi <= haystack@.len(),
            n as int == scan::lf_count(haystack@, lo as int, i as int),
            n <= i - lo,
        decreases hi - i,
    {
        if haystack[i] == scan::LINE_FEED {
            n = n + 1;
        }
        i = i + 1;
    }
    n
}

/// The shared chunked skeleton: clamp the stop value, scalar-scan the
/// unaligned tail, skip whole blocks of `big` and then `small` bytes while
/// the counter stays above the stop value, and let the scalar scanner
/// resolve the rest exactly.
fn scan_chunked(
    haystack: &[u8],
    end: usize,
    line: CoordType,
    line_stop: CoordType,
    align: usize,
    big: usize,
    small: usize,
) -> (r: (usize, CoordType))
    requires
        end <= haystack@.len(),
        1 <= align,
        1 <= small <= 1024,
        1 <= big <= 1024,
    ensures
        (r.0 as int, r.1 as int) == scan::scan_bwd(
            haystack@,
            0,
            end as int,
            line as int,
            line_stop as int,
        ),
{
    proof {
        scan::lemma_scan_bwd_clamp(haystack@, 0, end as int, line as int, line_stop as int);
    }
    let stop = if line_stop <= line {
        line_stop
    } else {
        line
    };
    let mut pos = end;
    let mut cur = line;

    let off = pos % align;
    if off != 0 && off < pos {
        proof {
            scan::lemma_scan_bwd_compose(
                haystack@,
                0,
                (pos - off) as int,
                pos as int,
                cur as int,
                stop as int,
            );
            scan::lemma_scan_bwd_monotonic(
                haystack@,
                (pos - off) as int,
                pos as int,
                cur as int,
                stop as int,
            );
        }
        let (p, l) = scalar::scan_scalar(haystack, pos - off, pos, cur, stop);
        pos = p;
        cur = l;
    }

    while pos >= big
        invariant
            pos <= end <= haystack@.len(),
            1 <= big <= 1024,
            scan::scan_bwd(haystack@, 0, pos as int, cur as int, stop as int) == scan::scan_bwd(
                haystack@,
                0,
                end as int,
                line as int,
                stop as int,
            ),
        ensures
            pos <= end,
            scan::scan_bwd(haystack@, 0, pos as int, cur as int, stop as int) == scan::scan_bwd(
                haystack@,
                0,
                end as int,
                line as int,
                stop as int,
            ),
        decreases pos,
    {
        let block_start = pos - big;
        let count = count_line_feeds(haystack, block_start, pos);
        let next = cur as i64 - count as i64;
        if next <= stop as i64 {
            break;
        }
        proof {
            scan::lemma_scan_bwd_chunk_skip(
                haystack@,
                0,
                block_start as int,
                pos as int,
                cur as int,
                stop as int,
            );
        }
        pos = block_start;
        cur = next as CoordType;
    }

    while pos >= small
        invariant
            pos <= end <= haystack@.len(),
            1 <= small <= 1024,
            scan::scan_bwd(haystack@, 0, pos as int, cur as int, stop as int) == scan::scan_bwd(
                haystack@,
                0,
                end as int,
                line as int,
                stop as int,
            ),
        ensures
            pos <= end,
            scan::scan_bwd(haystack@, 0, pos as int, cur as int, stop as int) == scan::scan_bwd(
                haystack@,
                0,
                end as int,
                line as int,
                stop as int,
            ),
        decreases pos,
    {
        let block_start = pos - small;
        let count = count_line_feeds(haystack, block_start, pos);
        let next = cur as i64 - count as i64;
        if next <= stop as i64 {
            break;
        }
        proof {
            scan::lemma_scan_bwd_chunk_skip(
                haystack@,
                0,
                block_start as int,
                pos as int,
                cur as int,
                stop as int,
            );
        }
        pos = block_start;
        cur = next as CoordType;
    }

    scalar::scan_scalar(haystack, 0, pos, cur, stop)
}

/// The wide-tier backend: 32-byte alignment, 128-byte big blocks and
/// 32-byte small blocks, mirroring a four-register 256-bit scan.
pub fn lines_bwd_wide(
    haystack: &[u8],
    end: usize,
    line: CoordType,
    line_stop: CoordType,
) -> (r: (usize, CoordType))
    requires
        end <= haystack@.len(),
    ensures
        (r.0 as int, r.1 as int) == scan::scan_bwd(
            haystack@,
            0,
            end as int,
            line as int,
            line_stop as int,
        ),
{
    scan_chunked(haystack, end, line, line_stop, WIDE_ALIGN, WIDE_BLOCK, WIDE_ALIGN)
}

/// The narrow-tier backend: 16-byte alignment, 64-byte big blocks and
/// 16-byte small blocks, mirroring a four-register 128-bit scan.
pub fn lines_bwd_narrow(
    haystack: &[u8],
    end: usize,
    line: CoordType,
    line_stop: CoordType,
) -> (r: (usize, CoordType))
    requires
        end <= haystack@.len(),
    ensures
        (r.0 as int, r.1 as int) == scan::scan_bwd(
            haystack@,
            0,
            end as int,
            line as int,
            line_stop as int,
        ),
{
    scan_chunked(haystack, end, line, line_stop, NARROW_ALIGN, NARROW_BLOCK, NARROW_ALIGN)
}

} // verus!
