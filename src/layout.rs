//! The slice layout: a full turn of 360 degrees cut into equal arcs, the
//! last of which reaches exactly to 360.
use vstd::prelude::*;

verus! {

/// Degrees in a full turn.
pub const FULL_TURN: usize = 360;

/// A colour with eight bits per channel.
#[derive(Clone, Copy, Debug, PartialEq, Eq, Structural)]
pub struct Color {
    pub red: u8,
    pub green: u8,
    pub blue: u8,
}

/// One labelled, coloured slice of the wheel.
#[derive(Clone, Debug)]
pub struct Slice {
    pub label: String,
    pub color: Color,
}

/// Width in whole degrees of every slice but the last, for `n` slices.
pub open spec fn width_spec(n: int) -> int
    recommends
        n >= 1,
{
    360int / n
}

/// Start of slice `i` of `n`, in degrees.
pub open spec fn start_spec(n: int, i: int) -> int {
    i * width_spec(n)
}

/// End of slice `i` of `n`, in degrees: the last one ends at 360.
pub open spec fn end_spec(n: int, i: int) -> int {
    if i == n - 1 {
        360
    } else {
        (i + 1) * width_spec(n)
    }
}

/// Sum of the widths `end - start` of the first `k` slices of `n`.
pub open spec fn widths_sum(n: int, k: nat) -> int
    decreases k,
{
    if k == 0 {
        0
    } else {
        widths_sum(n, (k - 1) as nat) + end_spec(n, k - 1) - start_spec(n, k - 1)
    }
}

/// Index of the slice under the marker when the wheel stands at `deg`
/// degrees: the slice whose arc holds `deg mod 360`.
pub open spec fn winner_spec(n: int, deg: int) -> int
    recommends
        1 <= n <= 360,
{
    let q = (deg % 360) / width_spec(n);
    if q < n - 1 {
        q
    } else {
        n - 1
    }
}

/// The slices of the wheel, in order round the circle; never empty.
pub struct Slices {
    pub entries: Vec<Slice>,
}

impl Slices {
    /// Number of slices.
    pub open spec fn count(&self) -> int {
        self.entries@.len() as int
    }

    pub open spec fn wf(&self) -> bool {
        self.entries@.len() >= 1
    }

    /// A layout of the given slices, in the given order.
    pub fn new(entries: Vec<Slice>) -> (r: Slices)
        requires
            entries@.len() >= 1,
        ensures
            r.wf(),
            r.entries@ == entries@,
    {
        Slices { entries }
    }

    /// Width in whole degrees of each slice (the last may be wider).
    pub fn slice_width(&self) -> (r: usize)
        requires
            self.wf(),
        ensures
            r == width_spec(self.count()),
    {
        FULL_TURN / self.entries.len()
    }

    /// Start and end, in degrees, of slice `index`.
    pub fn boundaries(&self, index: usize) -> (r: (usize, usize))
        requires
            self.wf(),
            index < self.count(),
        ensures
            r.0 == start_spec(self.count(), index as int),
            r.1 == end_spec(self.count(), index as int),
            r.0 <= r.1 <= 360,
    {
        let n = self.entries.len();
        let w = self.slice_width();
        proof {
            lemma_bounds(n as int, index as int);
        }
        let start = index * w;
        let end = if index == n - 1 {
            FULL_TURN
        } else {
            start + w
        };
        (start, end)
    }

    /// Index of the slice under the marker when the wheel stands at `deg`
    /// degrees.
    pub fn winning_index(&self, deg: u64) -> (r: usize)
        requires
            self.wf(),
            self.count() <= 360,
        ensures
            r == winner_spec(self.count(), deg as int),
            r < self.count(),
            start_spec(self.count(), r as int) <= deg % 360 < end_spec(self.count(), r as int),
    {
        let n = self.entries.len();
        let w = self.slice_width();
        let rot = (deg % 360) as usize;
        proof {
            lemma_bounds(n as int, 0);
            lemma_winner_in_arc(n as int, deg as int);
        }
        let q = rot / w;
        if q < n - 1 {
            q
        } else {
            n - 1
        }
    }

    /// The slice under the marker when the wheel stands at `deg` degrees.
    pub fn current_winner_slice(&self, deg: u64) -> (r: Slice)
        requires
            self.wf(),
            self.count() <= 360,
        ensures
            r.label@ == self.entries@[winner_spec(self.count(), deg as int)].label@,
            r.color == self.entries@[winner_spec(self.count(), deg as int)].color,
    {
        let i = self.winning_index(deg);
        let s = &self.entries[i];
        Slice { label: s.label.clone(), color: s.color }
    }
}

/// The whole degrees `from, from + 1, ..., to` at which the arc of a slice
/// is sampled.
pub fn arc_degrees(from: usize, to: usize) -> (r: Vec<usize>)
    requires
        from <= to < usize::MAX,
    ensures
        r@.len() == to - from + 1,
        forall|k: int| 0 <= k < r@.len() ==> r@[k] == from + k,
{
    let mut r: Vec<usize> = Vec::new();
    let mut d: usize = from;
    while d <= to
        invariant
            from <= d <= to + 1,
            to < usize::MAX,
            r@.len() == d - from,
            forall|k: int| 0 <= k < r@.len() ==> r@[k] == from + k,
        decreases to + 1 - d,
    {
        r.push(d);
        d = d + 1;
    }
    r
}

/// Each slice's arc lies within the full turn, and slice `i` ends where
/// slice `i + 1` starts.
pub proof fn lemma_bounds(n: int, i: int)
    requires
        n >= 1,
        0 <= i < n,
    ensures
        0 <= start_spec(n, i) <= end_spec(n, i) <= 360,
        i + 1 < n ==> end_spec(n, i) == start_spec(n, i + 1),
        i + 1 < n ==> end_spec(n, i) == start_spec(n, i) + width_spec(n),
        i == 0 ==> start_spec(n, i) == 0,
        n <= 360 ==> width_spec(n) >= 1,
{
    let w = width_spec(n);
    assert(0 <= w <= 360);
    assert(n * w <= 360) by (nonlinear_arith)
        requires w == 360int / n, n >= 1;
    assert(0 <= i * w <= (n - 1) * w) by (nonlinear_arith)
        requires 0 <= i < n, w >= 0;
    assert((i + 1) * w <= n * w) by (nonlinear_arith)
        requires 0 <= i < n, w >= 0;
    assert((i + 1) * w == i * w + w) by (nonlinear_arith);
    assert(0 * w == 0);
    if n <= 360 {
        assert(w >= 1) by (nonlinear_arith)
            requires w == 360int / n, 1 <= n <= 360;
    }
}

/// For `deg >= 0` the winning slice's arc holds `deg mod 360`.
pub proof fn lemma_winner_in_arc(n: int, deg: int)
    requires
        1 <= n <= 360,
        deg >= 0,
    ensures
        0 <= winner_spec(n, deg) < n,
        start_spec(n, winner_spec(n, deg)) <= deg % 360 < end_spec(n, winner_spec(n, deg)),
{
    let w = width_spec(n);
    let rot = deg % 360;
    let q = rot / w;
    assert(w >= 1) by (nonlinear_arith)
        requires w == 360int / n, 1 <= n <= 360;
    assert(0 <= rot < 360);
    assert(q * w <= rot < (q + 1) * w) by (nonlinear_arith)
        requires q == rot / w, w >= 1, rot >= 0;
    assert(q >= 0) by (nonlinear_arith)
        requires q == rot / w, w >= 1, rot >= 0;
    let r = winner_spec(n, deg);
    lemma_bounds(n, r);
    if q >= n - 1 {
        assert((n - 1) * w <= q * w) by (nonlinear_arith)
            requires q >= n - 1, w >= 1;
    }
}

/// The widths of the `n` slices add up to exactly a full turn, and the last
/// slice ends at 360.
pub proof fn lemma_widths_cover_turn(n: int)
    requires
        n >= 1,
    ensures
        widths_sum(n, n as nat) == 360,
        end_spec(n, n - 1) == 360,
{
    lemma_widths_prefix(n, n as nat);
}

/// The first `k` slices together span from 0 to the end of slice `k - 1`.
proof fn lemma_widths_prefix(n: int, k: nat)
    requires
        n >= 1,
        1 <= k <= n,
    ensures
        widths_sum(n, k) == end_spec(n, k - 1),
    decreases k,
{
    lemma_bounds(n, k - 1);
    if k > 1 {
        lemma_widths_prefix(n, (k - 1) as nat);
        lemma_bounds(n, k - 2);
        assert(widths_sum(n, k) == widths_sum(n, (k - 1) as nat) + end_spec(n, k - 1) - start_spec(
            n,
            k - 1,
        ));
    } else {
        lemma_bounds(n, 0);
        assert(widths_sum(n, 1) == widths_sum(n, 0) + end_spec(n, 0) - start_spec(n, 0));
    }
}

/// A full turn of the wheel leaves the winning slice unchanged.
pub proof fn lemma_winner_full_turn(n: int, deg: int)
    requires
        1 <= n <= 360,
        deg >= 0,
    ensures
        winner_spec(n, deg + 360) == winner_spec(n, deg),
{
    assert((deg + 360) % 360 == deg % 360) by (nonlinear_arith)
        requires deg >= 0;
}

} // verus!
