//! The mathematical model of the backward scan.
//!
//! `scan_bwd` is the one definition every backend is measured against: a
//! byte-at-a-time walk from `pos` down toward `floor` that decrements the
//! line counter for each line feed it consumes and stops just past a line
//! feed once the counter is at or below the stop value. The lemmas here
//! state the properties the chunked backends and the public entry point
//! rely on: clamping the stop value, skipping a whole chunk by its line-feed
//! count, composing a bounded scan with the rest of the buffer, and the
//! monotonicity, idempotence and line-start shape of the result.

use vstd::prelude::*;

verus! {

/// The one byte value this engine recognizes: line feed.
pub const LINE_FEED: u8 = 10;

/// How many line feeds `b` holds in the index range `[lo, hi)`.
pub open spec fn lf_count(b: Seq<u8>, lo: int, hi: int) -> int
    recommends
        0 <= lo <= hi <= b.len(),
    decreases hi - lo,
{
    if hi <= lo {
        0
    } else {
        lf_count(b, lo, hi - 1) + if b[hi - 1] == LINE_FEED {
            1int
        } else {
            0int
        }
    }
}

/// The backward scan itself, bounded below by `floor`: from `pos`, walk
/// backward one byte at a time. A line feed stops the scan (position stays
/// just past it) once `line <= line_stop`; otherwise it decrements `line`.
/// The scan also stops on reaching `floor`.
pub open spec fn scan_bwd(b: Seq<u8>, floor: int, pos: int, line: int, line_stop: int) -> (int, int)
    recommends
        0 <= floor <= pos <= b.len(),
    decreases pos - floor,
{
    if pos <= floor {
        (pos, line)
    } else if b[pos - 1] == LINE_FEED {
        if line <= line_stop {
            (pos, line)
        } else {
            scan_bwd(b, floor, pos - 1, line - 1, line_stop)
        }
    } else {
        scan_bwd(b, floor, pos - 1, line, line_stop)
    }
}

/// A line-feed count is between 0 and the width of its range.
pub proof fn lemma_lf_count_bounds(b: Seq<u8>, lo: int, hi: int)
    requires
        0 <= lo <= hi <= b.len(),
    ensures
        0 <= lf_count(b, lo, hi) <= hi - lo,
    decreases hi - lo,
{
    if hi > lo {
        lemma_lf_count_bounds(b, lo, hi - 1);
    }
}

/// The scan only moves backward, only decrements the line counter, and
/// never passes its floor.
pub proof fn lemma_scan_bwd_monotonic(b: Seq<u8>, floor: int, pos: int, line: int, line_stop: int)
    requires
        0 <= floor <= pos <= b.len(),
    ensures
        floor <= scan_bwd(b, floor, pos, line, line_stop).0 <= pos,
        scan_bwd(b, floor, pos, line, line_stop).1 <= line,
    decreases pos - floor,
{
    if pos > floor {
        if b[pos - 1] == LINE_FEED {
            if line > line_stop {
                lemma_scan_bwd_monotonic(b, floor, pos - 1, line - 1, line_stop);
            }
        } else {
            lemma_scan_bwd_monotonic(b, floor, pos - 1, line, line_stop);
        }
    }
}

/// Clamping the stop value to the current line counter does not change the
/// result: with `line_stop >= line` the scan already stops at the first
/// line feed, exactly as it does with the stop value lowered to `line`.
pub proof fn lemma_scan_bwd_clamp(b: Seq<u8>, floor: int, pos: int, line: int, line_stop: int)
    requires
        0 <= floor <= pos <= b.len(),
    ensures
        scan_bwd(b, floor, pos, line, line_stop) == scan_bwd(
            b,
            floor,
            pos,
            line,
            if line_stop <= line {
                line_stop
            } else {
                line
            },
        ),
    decreases pos - floor,
{
    if line_stop > line && pos > floor {
        if b[pos - 1] != LINE_FEED {
            lemma_scan_bwd_clamp(b, floor, pos - 1, line, line_stop);
        }
    }
}

/// A whole chunk may be skipped at once: if the line counter stays above
/// the stop value even after subtracting every line feed in `[mid, pos)`,
/// no byte of that range can stop the scan, so the scan from `pos` equals
/// the scan from `mid` with the counter lowered by the chunk's count.
pub proof fn lemma_scan_bwd_chunk_skip(
    b: Seq<u8>,
    floor: int,
    mid: int,
    pos: int,
    line: int,
    line_stop: int,
)
    requires
        0 <= floor <= mid <= pos <= b.len(),
        line - lf_count(b, mid, pos) > line_stop,
    ensures
        scan_bwd(b, floor, pos, line, line_stop) == scan_bwd(
            b,
            floor,
            mid,
            line - lf_count(b, mid, pos),
            line_stop,
        ),
    decreases pos - mid,
{
    if pos > mid {
        lemma_lf_count_bounds(b, mid, pos - 1);
        if b[pos - 1] == LINE_FEED {
            lemma_scan_bwd_chunk_skip(b, floor, mid, pos - 1, line - 1, line_stop);
        } else {
            lemma_scan_bwd_chunk_skip(b, floor, mid, pos - 1, line, line_stop);
        }
    }
}

/// A scan bounded below by `mid` composes with the rest of the buffer:
/// running the full scan is the same as first scanning down to `mid` and
/// then continuing from wherever that bounded scan stopped.
pub proof fn lemma_scan_bwd_compose(
    b: Seq<u8>,
    floor: int,
    mid: int,
    pos: int,
    line: int,
    line_stop: int,
)
    requires
        0 <= floor <= mid <= pos <= b.len(),
    ensures
        scan_bwd(b, floor, pos, line, line_stop) == scan_bwd(
            b,
            floor,
            scan_bwd(b, mid, pos, line, line_stop).0,
            scan_bwd(b, mid, pos, line, line_stop).1,
            line_stop,
        ),
    decreases pos - mid,
{
    if pos > mid {
        if b[pos - 1] == LINE_FEED {
            if line > line_stop {
                lemma_scan_bwd_compose(b, floor, mid, pos - 1, line - 1, line_stop);
            }
        } else {
            lemma_scan_bwd_compose(b, floor, mid, pos - 1, line, line_stop);
        }
    } else {
        lemma_scan_bwd_monotonic(b, mid, pos, line, line_stop);
    }
}

/// The shape of a finished scan: the position lands on the floor or just
/// past a line feed with the counter at or below the stop value, and the
/// counter dropped by exactly the number of line feeds left behind it.
pub proof fn lemma_scan_bwd_characterize(
    b: Seq<u8>,
    floor: int,
    pos: int,
    line: int,
    line_stop: int,
)
    requires
        0 <= floor <= pos <= b.len(),
    ensures
        ({
            let r = scan_bwd(b, floor, pos, line, line_stop);
            &&& r.0 == floor || (b[r.0 - 1] == LINE_FEED && r.1 <= line_stop)
            &&& r.1 == line - lf_count(b, r.0, pos)
        }),
    decreases pos - floor,
{
    lemma_scan_bwd_monotonic(b, floor, pos, line, line_stop);
    if pos > floor {
        let r = scan_bwd(b, floor, pos, line, line_stop);
        if b[pos - 1] == LINE_FEED {
            if line > line_stop {
                lemma_scan_bwd_monotonic(b, floor, pos - 1, line - 1, line_stop);
                lemma_scan_bwd_characterize(b, floor, pos - 1, line - 1, line_stop);
                lemma_lf_count_split(b, r.0, pos - 1, pos);
            }
        } else {
            lemma_scan_bwd_monotonic(b, floor, pos - 1, line, line_stop);
            lemma_scan_bwd_characterize(b, floor, pos - 1, line, line_stop);
            lemma_lf_count_split(b, r.0, pos - 1, pos);
        }
    }
}

/// Counting over `[lo, hi)` splits at any point in between.
pub proof fn lemma_lf_count_split(b: Seq<u8>, lo: int, mid: int, hi: int)
    requires
        0 <= lo <= mid <= hi <= b.len(),
    ensures
        lf_count(b, lo, hi) == lf_count(b, lo, mid) + lf_count(b, mid, hi),
    decreases hi - mid,
{
    if hi > mid {
        lemma_lf_count_split(b, lo, mid, hi - 1);
    }
}

/// Scanning again from where a scan stopped changes nothing: the position
/// is already the floor or just past a stopping line feed.
pub proof fn lemma_scan_bwd_idempotent(b: Seq<u8>, floor: int, pos: int, line: int, line_stop: int)
    requires
        0 <= floor <= pos <= b.len(),
    ensures
        ({
            let r = scan_bwd(b, floor, pos, line, line_stop);
            scan_bwd(b, floor, r.0, r.1, line_stop) == r
        }),
{
    lemma_scan_bwd_monotonic(b, floor, pos, line, line_stop);
    lemma_scan_bwd_characterize(b, floor, pos, line, line_stop);
}

} // verus!
