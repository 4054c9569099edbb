use linescan::dispatch::{lines_bwd_with, select_backend, Backend, CpuFeatures, DispatchCache};
use linescan::lines_bwd;
use linescan::scalar::scan_scalar;
use linescan::vector::count_line_feeds;

/// A small deterministic pseudo-random generator, so the fuzz runs are
/// reproducible.
fn make_rng() -> impl FnMut() -> usize {
    let mut state: u64 = 0x243F6A8885A308D3;
    move || {
        state = state.wrapping_mul(6364136223846793005).wrapping_add(1442695040888963407);
        (state >> 33) as usize
    }
}

/// Text with random line-feed placement: roughly one line feed per sixteen
/// bytes, the rest printable ASCII.
fn generate_random_text(len: usize) -> String {
    let mut rng = make_rng();
    let mut text = String::new();
    for _ in 0..len {
        if rng() % 16 == 0 {
            text.push('\n');
        } else {
            text.push((b' ' + (rng() % 95) as u8) as char);
        }
    }
    text
}

fn count_lines(text: &str) -> usize {
    text.bytes().filter(|&b| b == b'\n').count()
}

/// The independent oracle: scans byte-by-byte with no chunking, written
/// separately from the library's scalar scanner.
fn reference_lines_bwd(
    haystack: &[u8],
    mut offset: usize,
    mut line: i32,
    line_stop: i32,
) -> (usize, i32) {
    if line >= line_stop {
        while offset > 0 {
            let c = haystack[offset - 1];
            if c == b'\n' {
                if line == line_stop {
                    break;
                }
                line -= 1;
            }
            offset -= 1;
        }
    }
    (offset, line)
}

#[test]
fn pseudo_fuzz() {
    let text = generate_random_text(1024);
    let lines = count_lines(&text);
    let mut offset_rng = make_rng();
    let mut line_rng = make_rng();
    let mut line_distance_rng = make_rng();

    for _ in 0..1000 {
        let offset = offset_rng() % (text.len() + 1);
        let line_stop = line_distance_rng() % (lines + 1);
        let line = line_stop + line_rng() % 100;

        let line = line as i32;
        let line_stop = line_stop as i32;

        let expected = reference_lines_bwd(text.as_bytes(), offset, line, line_stop);
        let actual = lines_bwd(text.as_bytes(), offset, line, line_stop);

        assert_eq!(expected, actual);
    }
}

#[test]
fn seeks_to_start() {
    for i in 6..=11 {
        let (off, line) = lines_bwd(b"Hello\nWorld\n", i, 123, 456);
        assert_eq!(off, 6); // After "Hello\n"
        assert_eq!(line, 123); // Still on the same line
    }
}

#[test]
fn empty_buffer() {
    assert_eq!(lines_bwd(b"", 0, 5, 0), (0, 5));
}

#[test]
fn offset_zero_is_a_no_op() {
    for &line in &[i32::MIN, -7, 0, 3, i32::MAX] {
        for &stop in &[i32::MIN, -1, 0, 42, i32::MAX] {
            assert_eq!(lines_bwd(b"", 0, line, stop), (0, line));
            assert_eq!(lines_bwd(b"a\nb\nc", 0, line, stop), (0, line));
        }
    }
}

#[test]
fn offset_past_the_end_is_clamped() {
    assert_eq!(lines_bwd(b"ab\ncd", 100, 7, 7), (3, 7));
    assert_eq!(lines_bwd(b"", 9, 1, 0), (0, 1));
}

#[test]
fn consumes_lines_down_to_the_stop() {
    let text = b"one\ntwo\nthree\nfour";
    // From the end with line 3, seeking line 1: two line feeds consumed,
    // stop just past the line feed that precedes line 1.
    assert_eq!(lines_bwd(text, text.len(), 3, 1), (4, 1));
    // Seeking line 2 from line 3: stops past the second-to-last line feed.
    assert_eq!(lines_bwd(text, text.len(), 3, 2), (8, 2));
    // No line feed stops the walk before the buffer start: runs to 0.
    assert_eq!(lines_bwd(text, 3, 0, 0), (0, 0));
}

#[test]
fn all_backends_agree() {
    let sizes = [
        0, 1, 15, 16, 17, 31, 32, 33, 63, 64, 65, 127, 128, 129, 200, 256, 300,
    ];
    let backends = [Backend::Scalar, Backend::Wide, Backend::Narrow];
    let mut rng = make_rng();
    for &size in &sizes {
        let text = generate_random_text(size);
        let lines = count_lines(&text);
        for _ in 0..50 {
            let offset = rng() % (text.len() + 1);
            let line_stop = (rng() % (lines + 2)) as i32 - 1;
            let line = line_stop + (rng() % 100) as i32;
            let expected = reference_lines_bwd(text.as_bytes(), offset, line, line_stop);
            for &backend in &backends {
                let actual = lines_bwd_with(backend, text.as_bytes(), offset, line, line_stop);
                assert_eq!(expected, actual);
            }
        }
    }
}

#[test]
fn monotonic_on_random_inputs() {
    let text = generate_random_text(512);
    let mut rng = make_rng();
    for _ in 0..200 {
        let offset = rng() % (text.len() + 1);
        let line = (rng() % 1000) as i32 - 500;
        let stop = (rng() % 1000) as i32 - 500;
        let (off2, line2) = lines_bwd(text.as_bytes(), offset, line, stop);
        assert!(off2 <= offset);
        assert!(line2 <= line);
    }
}

#[test]
fn idempotent_once_stopped() {
    let text = generate_random_text(512);
    let mut rng = make_rng();
    for _ in 0..200 {
        let offset = rng() % (text.len() + 1);
        let stop = (rng() % 40) as i32;
        let line = stop + (rng() % 40) as i32;
        let first = lines_bwd(text.as_bytes(), offset, line, stop);
        let again = lines_bwd(text.as_bytes(), first.0, first.1, stop);
        assert_eq!(first, again);
    }
}

#[test]
fn stop_ahead_of_line_acts_as_line() {
    let text = b"alpha\nbeta\ngamma\n";
    for offset in 0..=text.len() {
        for &line in &[-3, 0, 2, 50] {
            let clamped = lines_bwd(text, offset, line, line);
            let ahead = lines_bwd(text, offset, line, line + 7);
            assert_eq!(clamped, ahead);
        }
    }
}

#[test]
fn backend_selection_is_ranked() {
    assert_eq!(
        select_backend(CpuFeatures { wide: true, narrow: true }),
        Backend::Wide
    );
    assert_eq!(
        select_backend(CpuFeatures { wide: true, narrow: false }),
        Backend::Wide
    );
    assert_eq!(
        select_backend(CpuFeatures { wide: false, narrow: true }),
        Backend::Narrow
    );
    assert_eq!(
        select_backend(CpuFeatures { wide: false, narrow: false }),
        Backend::Scalar
    );
}

#[test]
fn dispatch_cache_resolves_once() {
    let mut cache = DispatchCache::new();
    let narrow_only = CpuFeatures { wide: false, narrow: true };
    let first = cache.resolve(narrow_only);
    assert_eq!(first, Backend::Narrow);
    // The slot is never overwritten: later capability values are ignored.
    let second = cache.resolve(CpuFeatures { wide: true, narrow: true });
    assert_eq!(second, Backend::Narrow);
    let third = cache.resolve(narrow_only);
    assert_eq!(third, Backend::Narrow);
}

#[test]
fn counts_line_feeds_in_range() {
    let text = b"a\nb\n\nc";
    assert_eq!(count_line_feeds(text, 0, text.len()), 3);
    assert_eq!(count_line_feeds(text, 0, 2), 1);
    assert_eq!(count_line_feeds(text, 2, 5), 2);
    assert_eq!(count_line_feeds(text, 5, 6), 0);
    assert_eq!(count_line_feeds(text, 3, 3), 0);
}

#[test]
fn scalar_scan_respects_its_floor() {
    let text = b"x\ny\nz";
    // Bounded below by 3: the walk consumes the line feed at 3 and then
    // stops at the floor, leaving the earlier line feed unseen.
    assert_eq!(scan_scalar(text, 3, 5, 9, 0), (3, 8));
    // Unbounded: the first line feed backward stops it once line <= stop.
    assert_eq!(scan_scalar(text, 0, 5, 9, 9), (4, 9));
    // Consumes one line feed, then stops at the next.
    assert_eq!(scan_scalar(text, 0, 5, 9, 8), (2, 8));
}
