use vstd::prelude::*;

verus! {

/// How many of the newest interleaved samples the oscilloscope shows.
pub const OSCILLOSCOPE_WINDOW_SAMPLES: usize = 1024;

/// The even-indexed samples (left channel) of an interleaved stereo buffer.
pub open spec fn left_of<T>(s: Seq<T>) -> Seq<T> {
    Seq::new(((s.len() + 1) / 2) as nat, |i: int| s[2 * i])
}

/// The odd-indexed samples (right channel) of an interleaved stereo buffer.
pub open spec fn right_of<T>(s: Seq<T>) -> Seq<T> {
    Seq::new((s.len() / 2) as nat, |i: int| s[2 * i + 1])
}

/// Splits interleaved stereo samples into their two channels; a buffer with
/// no right-channel sample is shown as mono, the left channel on both sides.
pub fn split_channels<T: Copy>(samples: &Vec<T>) -> (r: (Vec<T>, Vec<T>))
    ensures
        r.0@ == left_of(samples@),
        r.1@ == (if samples@.len() < 2 { left_of(samples@) } else { right_of(samples@) }),
{
    let mut left: Vec<T> = Vec::new();
    let mut right: Vec<T> = Vec::new();
    let mut i: usize = 0;
    while i < samples.len()
        invariant
            i <= samples.len(),
            left@ == left_of(samples@.take(i as int)),
            right@ == right_of(samples@.take(i as int)),
        decreases samples.len() - i,
    {
        if i % 2 == 0 {
            left.push(samples[i]);
        } else {
            right.push(samples[i]);
        }
        i = i + 1;
        assert(left@ =~= left_of(samples@.take(i as int)));
        assert(right@ =~= right_of(samples@.take(i as int)));
    }
    assert(samples@.take(i as int) =~= samples@);
    if right.len() == 0 {
        let mut j: usize = 0;
        while j < left.len()
            invariant
                j <= left.len(),
                right@ == left@.take(j as int),
            decreases left.len() - j,
        {
            right.push(left[j]);
            j = j + 1;
            assert(right@ =~= left@.take(j as int));
        }
        assert(left@.take(j as int) =~= left@);
    }
    (left, right)
}

/// The slice `[start, end)` of interleaved samples that the oscilloscope
/// draws: whole stereo frames only, and at most the newest
/// `OSCILLOSCOPE_WINDOW_SAMPLES` of them.
pub fn oscilloscope_window(len: usize) -> (r: (usize, usize))
    ensures
        r.1 == len - len % 2,
        r.0 == (if r.1 == 0 {
            0
        } else if r.1 > OSCILLOSCOPE_WINDOW_SAMPLES {
            (r.1 - OSCILLOSCOPE_WINDOW_SAMPLES) as int
        } else {
            0
        }),
{
    let end = len - len % 2;
    if end == 0 {
        return (0, 0);
    }
    let max_len = OSCILLOSCOPE_WINDOW_SAMPLES - OSCILLOSCOPE_WINDOW_SAMPLES % 2;
    let start = end.saturating_sub(max_len);
    (start, end)
}

/// Width in cells of one spectrum bar.
pub const SPECTRUM_BAR_WIDTH: usize = 2;
/// Cells between two spectrum bars.
pub const SPECTRUM_BAR_GAP: usize = 1;

/// How many bars fit a spectrum pane of width `w` (at least one).
pub open spec fn bar_count_for(w: nat) -> nat {
    let c = (w + SPECTRUM_BAR_GAP) / (SPECTRUM_BAR_WIDTH + SPECTRUM_BAR_GAP);
    if c < 1 { 1 } else { c as nat }
}

/// The width of each bar before the leftover cells are handed out.
pub open spec fn base_bar_width(w: nat) -> nat {
    if w < SPECTRUM_BAR_WIDTH { if w < 1 { 1 } else { w } } else { SPECTRUM_BAR_WIDTH as nat }
}

/// The cells left over after every bar and gap.
pub open spec fn leftover_cells(w: nat) -> int {
    let c = bar_count_for(w);
    w - (base_bar_width(w) * c + SPECTRUM_BAR_GAP * (c - 1))
}

/// The widths of the spectrum bars: the leftover cells widen the rightmost
/// bars by one each, and any still left go to the first bar.
pub open spec fn bar_width_at(w: nat, j: int) -> int {
    let c = bar_count_for(w) as int;
    let extra = if leftover_cells(w) > 0 { leftover_cells(w) } else { 0 };
    base_bar_width(w) + if j > 0 {
        if c - 1 - j < extra { 1int } else { 0int }
    } else if extra >= c {
        extra - c + 1
    } else {
        0int
    }
}

pub fn spectrum_bar_widths(inner_width: u16) -> (r: Vec<usize>)
    ensures
        r@.len() == bar_count_for(inner_width as nat),
        forall|j: int| 0 <= j < r@.len() ==> #[trigger] r@[j] == bar_width_at(inner_width as nat, j),
{
    let w = inner_width as usize;
    let q = (w + SPECTRUM_BAR_GAP) / (SPECTRUM_BAR_WIDTH + SPECTRUM_BAR_GAP);
    let count = if q < 1 { 1 } else { q };
    let base = if w < SPECTRUM_BAR_WIDTH { if w < 1 { 1 } else { w } } else { SPECTRUM_BAR_WIDTH };
    assert(count as nat == bar_count_for(w as nat));
    assert(base as nat == base_bar_width(w as nat));
    assert(count <= 0x10000) by (nonlinear_arith)
        requires count == (if q < 1 { 1 } else { q }), q == (w + 1) / 3, w <= 0xffff;
    assert(base * count <= 0x20000) by (nonlinear_arith)
        requires base <= 2, count <= 0x10000;
    let used = base * count + SPECTRUM_BAR_GAP * (count - 1);
    let extra = if used < w { w - used } else { 0 };
    let mut widths: Vec<usize> = Vec::new();
    let mut j: usize = 0;
    while j < count
        invariant
            j <= count,
            count == bar_count_for(w as nat),
            base == base_bar_width(w as nat),
            extra as int == (if leftover_cells(w as nat) > 0 { leftover_cells(w as nat) } else { 0 }),
            used as int == base * count + SPECTRUM_BAR_GAP * (count - 1),
            w as nat == inner_width as nat,
            extra <= 0x10000,
            widths@.len() == j,
            forall|k: int| 0 <= k < j ==> #[trigger] widths@[k] == bar_width_at(w as nat, k),
        decreases count - j,
    {
        let add = if j > 0 {
            if count - 1 - j < extra { 1 } else { 0 }
        } else if extra >= count {
            extra - count + 1
        } else {
            0
        };
        widths.push(base + add);
        j = j + 1;
    }
    widths
}

/// How many eighths of a cell a bar of `units` eighths fills in the row
/// `row_from_bottom` rows above its foot.
pub open spec fn cell_eighths(units: nat, row_from_bottom: nat) -> nat {
    let remaining = units - row_from_bottom * 8;
    if remaining <= 0 { 0 } else if remaining >= 8 { 8 } else { remaining as nat }
}

/// The block character that draws `eighths` of a cell, from a blank to a
/// full block.
pub open spec fn eighth_block(eighths: nat) -> Seq<char> {
    if eighths == 0 { " "@ } else if eighths == 1 { "▁"@ } else if eighths == 2 { "▂"@ } else if eighths == 3 { "▃"@ }
    else if eighths == 4 { "▄"@ } else if eighths == 5 { "▅"@ } else if eighths == 6 { "▆"@ } else if eighths == 7 { "▇"@ }
    else { "█"@ }
}

/// The symbol of one cell of a spectrum bar.
pub fn bar_cell_symbol(units: usize, row_from_bottom: usize) -> (r: &'static str)
    ensures
        r@ == eighth_block(cell_eighths(units as nat, row_from_bottom as nat)),
{
    let filled: usize = if row_from_bottom > units / 8 {
        0
    } else {
        let below = row_from_bottom * 8;
        let remaining = units - below;
        if remaining >= 8 { 8 } else { remaining }
    };
    match filled {
        0 => " ",
        1 => "▁",
        2 => "▂",
        3 => "▃",
        4 => "▄",
        5 => "▅",
        6 => "▆",
        7 => "▇",
        _ => "█",
    }
}

} // verus!

verus! {

/// The spectrum's bar count, at least one.
pub open spec fn bar_total(bar_count: usize) -> int {
    if bar_count < 1 { 1 } else { bar_count as int }
}

/// The end of the spectrum's bin range, at least two.
pub open spec fn bin_end(max_bin_exclusive: usize) -> int {
    if max_bin_exclusive < 2 { 2 } else { max_bin_exclusive as int }
}

/// The start of the spectrum's bin range, kept between one and the bin
/// before the end.
pub open spec fn bin_start(min_bin: usize, max_bin_exclusive: usize) -> int {
    let hi = bin_end(max_bin_exclusive);
    if min_bin < 1 { 1 } else if min_bin > hi - 1 { hi - 1 } else { min_bin as int }
}

/// The bound before bar `i` (`0 < i < n`): the logarithmic candidate
/// `cands[i - 1]`, kept above the previous bound and low enough to leave a
/// bin for every later bar; the previous bound where no room is left.
pub open spec fn bin_bound(cands: Seq<usize>, n: int, lo: int, hi: int, i: int) -> int
    decreases i,
{
    if i <= 0 {
        lo
    } else {
        let last = bin_bound(cands, n, lo, hi, i - 1);
        let room = if hi >= n - i { hi - (n - i) } else { 0 };
        let max_allowed = if room > lo + 1 { room } else { lo + 1 };
        if max_allowed > last {
            let c = cands[i - 1] as int;
            if c < last + 1 { last + 1 } else if c > max_allowed { max_allowed } else { c }
        } else {
            last
        }
    }
}

/// The bin bounds of the spectrum's bars: the start, one bound between
/// each two bars, and the end.
pub open spec fn bin_bounds(cands: Seq<usize>, bar_count: usize, min_bin: usize, max_bin_exclusive: usize) -> Seq<usize> {
    let n = bar_total(bar_count);
    let lo = bin_start(min_bin, max_bin_exclusive);
    let hi = bin_end(max_bin_exclusive);
    Seq::new(n as nat, |i: int| bin_bound(cands, n, lo, hi, i) as usize).push(hi as usize)
}

proof fn lemma_bin_bound_range(cands: Seq<usize>, n: int, lo: int, hi: int, i: int)
    requires
        1 <= lo < hi,
        0 <= i <= n,
    ensures
        lo <= bin_bound(cands, n, lo, hi, i) <= hi,
        i > 0 ==> bin_bound(cands, n, lo, hi, i - 1) <= bin_bound(cands, n, lo, hi, i),
    decreases i,
{
    if i > 0 {
        lemma_bin_bound_range(cands, n, lo, hi, i - 1);
    }
}

/// The bin bounds of a logarithmic spectrum, from the rounded logarithmic
/// candidate `cands[i - 1]` of every inner bound `i`: the bar count is at
/// least one, the range at least `1..2`, and every inner bound lies above
/// the one before and leaves room for the bars after it, where it can.
pub fn log_bin_bounds_from(cands: &Vec<usize>, bar_count: usize, min_bin: usize, max_bin_exclusive: usize) -> (r: Vec<usize>)
    requires
        cands@.len() + 1 >= bar_total(bar_count),
        bar_count < usize::MAX,
    ensures
        r@ == bin_bounds(cands@, bar_count, min_bin, max_bin_exclusive),
        r@.len() == bar_total(bar_count) + 1,
        r@[0] == bin_start(min_bin, max_bin_exclusive),
        r@.last() == bin_end(max_bin_exclusive),
        forall|a: int, b: int| 0 <= a <= b < r@.len() ==> #[trigger] r@[a] <= #[trigger] r@[b],
{
    let n: usize = if bar_count < 1 { 1 } else { bar_count };
    let hi: usize = if max_bin_exclusive < 2 { 2 } else { max_bin_exclusive };
    let lo: usize = if min_bin < 1 { 1 } else if min_bin > hi - 1 { hi - 1 } else { min_bin };
    let ghost gn = n as int;
    let mut bounds: Vec<usize> = Vec::new();
    bounds.push(lo);
    let mut last: usize = lo;
    let mut i: usize = 1;
    while i < n
        invariant
            1 <= i <= n,
            gn == n,
            n == bar_total(bar_count),
            hi == bin_end(max_bin_exclusive),
            lo == bin_start(min_bin, max_bin_exclusive),
            1 <= lo < hi,
            cands@.len() + 1 >= n,
            bounds@.len() == i,
            forall|k: int| 0 <= k < i ==> #[trigger] bounds@[k] == bin_bound(cands@, gn, lo as int, hi as int, k),
            last == bin_bound(cands@, gn, lo as int, hi as int, i - 1),
        decreases n - i,
    {
        proof { lemma_bin_bound_range(cands@, gn, lo as int, hi as int, i - 1); }
        let room: usize = hi.saturating_sub(n - i);
        let max_allowed: usize = if room > lo + 1 { room } else { lo + 1 };
        let b: usize = if max_allowed > last {
            let c = cands[i - 1];
            if c < last + 1 { last + 1 } else if c > max_allowed { max_allowed } else { c }
        } else {
            last
        };
        bounds.push(b);
        last = b;
        i = i + 1;
    }
    bounds.push(hi);
    proof {
        assert(bounds@ =~= bin_bounds(cands@, bar_count, min_bin, max_bin_exclusive));
        assert forall|a: int, b: int| 0 <= a <= b < bounds@.len() implies #[trigger] bounds@[a] <= #[trigger] bounds@[b] by {
            lemma_bin_bounds_monotone(cands@, gn, lo as int, hi as int, a, b);
            if b < gn {
            } else if a < gn {
                lemma_bin_bound_range(cands@, gn, lo as int, hi as int, a);
            }
        }
    }
    bounds
}

proof fn lemma_bin_bounds_monotone(cands: Seq<usize>, n: int, lo: int, hi: int, a: int, b: int)
    requires
        1 <= lo < hi,
        0 <= a <= b <= n,
    ensures
        bin_bound(cands, n, lo, hi, a) <= bin_bound(cands, n, lo, hi, b),
    decreases b - a,
{
    if a < b {
        lemma_bin_bounds_monotone(cands, n, lo, hi, a, b - 1);
        lemma_bin_bound_range(cands, n, lo, hi, b);
    }
}

} // verus!
