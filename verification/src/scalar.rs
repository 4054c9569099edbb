//! The scalar scanner: a byte-at-a-time backward walk.
//!
//! This is both a standalone backend (the universal fallback where no
//! chunked path applies) and the mandatory final-resolution step of every
//! chunked backend, because those only track aggregate counts and never the
//! exact position of the stopping line feed. Its result is exactly the
//! model scan [`crate::scan::scan_bwd`].

use vstd::prelude::*;

use crate::CoordType;
use crate::scan;

verus! {

/// Walks backward from `end` toward `floor`, one byte at a time: a line
/// feed stops the walk once the counter is at or below `line_stop` (the
/// returned position stays just past it) and decrements the counter
/// otherwise. Returns the position where the walk stopped and the
/// remaining line counter.
pub fn scan_scalar(
    haystack: &[u8],
    floor: usize,
    end: usize,
    line: CoordType,
    line_stop: CoordType,
) -> (r: (usize, CoordType))
    requires
        floor <= end <= haystack@.len(),
    ensures
        (r.0 as int, r.1 as int) == scan::scan_bwd(
            haystack@,
            floor as int,
            end as int,
            line as int,
            line_stop as int,
        ),
{
    let mut pos = end;
    let mut cur = line;
    loop
        invariant
            floor <= pos <= end <= haystack@.len(),
            scan::scan_bwd(
                haystack@,
                floor as int,
                pos as int,
                cur as int,
                line_stop as int,
            ) == scan::scan_bwd(
                haystack@,
                floor as int,
                end as int,
                line as int,
                line_stop as int,
            ),
        ensures
            (pos as int, cur as int) == scan::scan_bwd(
                haystack@,
                floor as int,
                end as int,
                line as int,
                line_stop as int,
            ),
        decreases pos - floor,
    {
        if pos == floor {
            break;
        }
        let n = pos - 1;
        if haystack[n] == scan::LINE_FEED {
            if cur <= line_stop {
                break;
            }
            cur = cur - 1;
        }
        pos = n;
    }
    (pos, cur)
}

} // verus!
