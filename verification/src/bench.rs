//! Benchmark suite arithmetic: how many lines a flood writes, the colour
//! cycle of the cursor test, and the sliding window of chart samples.
use vstd::prelude::*;

verus! {

/// The line the flood benchmark writes over and over.
pub const FLOOD_LINE: &'static str = "The quick brown fox jumps over the lazy dog. 0123456789 !@#$%^&*()_+\n";

/// Bytes in a megabyte.
pub const MEGABYTE: usize = 1048576;

/// Whole lines of `line_len` bytes in `size_mb` megabytes.
pub fn flood_iterations(size_mb: usize, line_len: usize) -> (n: usize)
    requires
        size_mb * MEGABYTE <= usize::MAX,
        line_len > 0,
    ensures
        n == (size_mb * MEGABYTE) / (line_len as int),
{
    let total_bytes = size_mb * MEGABYTE;
    total_bytes / line_len
}

/// Colours of the cursor benchmark.
#[derive(Debug, Clone, Copy, PartialEq, Eq, Structural)]
pub enum BenchColor {
    Red,
    Green,
    Blue,
    Yellow,
}

/// The colour of the `i`-th write: red, green, blue, yellow in turn.
pub fn cursor_color(i: usize) -> (c: BenchColor)
    ensures
        c == (if i % 4 == 0 {
            BenchColor::Red
        } else if i % 4 == 1 {
            BenchColor::Green
        } else if i % 4 == 2 {
            BenchColor::Blue
        } else {
            BenchColor::Yellow
        }),
{
    match i % 4 {
        0 => BenchColor::Red,
        1 => BenchColor::Green,
        2 => BenchColor::Blue,
        _ => BenchColor::Yellow,
    }
}

/// The window after appending `x`: its last `max` samples, the oldest one
/// dropped when the window was full.
pub open spec fn window_after<T>(w: Seq<T>, x: T, max: usize) -> Seq<T> {
    if w.push(x).len() > max {
        w.push(x).drop_first()
    } else {
        w.push(x)
    }
}

/// Append a sample to a window of at most `max` samples.
pub fn push_bounded<T>(window: &mut Vec<T>, x: T, max: usize)
    requires
        old(window)@.len() < usize::MAX,
    ensures
        final(window)@ == window_after(old(window)@, x, max),
{
    window.push(x);
    if window.len() > max {
        let _ = window.remove(0);
        proof {
            assert(window@ =~= old(window)@.push(x).drop_first());
        }
    }
}

/// A full window stays full: once it holds `max` samples, appending keeps
/// it at `max`.
pub proof fn lemma_window_stays_bounded<T>(w: Seq<T>, x: T, max: usize)
    requires
        w.len() <= max,
    ensures
        window_after(w, x, max).len() <= max,
        w.len() == max ==> window_after(w, x, max).len() == max,
{
}

} // verus!
