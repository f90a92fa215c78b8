//! The mathematical model of the toroidal grid and the cyclic transition rule,
//! together with the verified per-cell rule evaluation.

use vstd::prelude::*;

verus! {

/// Row-major index of the cell at column `x`, row `y` on a grid `w` cells wide.
pub open spec fn idx_of(w: int, x: int, y: int) -> int {
    y * w + x
}

/// A flat row-major sequence `g` is a well-formed grid of width `w`, height `h`.
pub open spec fn grid_wf(g: Seq<u32>, w: int, h: int) -> bool {
    &&& 1 <= w
    &&& 1 <= h
    &&& g.len() == w * h
}

/// Every cell of `g` holds a state below `n`.
pub open spec fn states_below(g: Seq<u32>, n: u32) -> bool {
    forall|i: int| 0 <= i < g.len() ==> g[i] < n
}

/// The coordinate one step before `i`, wrapped toroidally over `0..m`.
pub open spec fn wrap_dec(i: int, m: int) -> int {
    if i == 0 {
        m - 1
    } else {
        i - 1
    }
}

/// The coordinate one step past `i`, wrapped toroidally over `0..m`.
pub open spec fn wrap_inc(i: int, m: int) -> int {
    if i == m - 1 {
        0
    } else {
        i + 1
    }
}

/// The state of the cell at `(x, y)`.
pub open spec fn cell_at(g: Seq<u32>, w: int, x: int, y: int) -> u32 {
    g[idx_of(w, x, y)]
}

/// The eight states of the Moore neighborhood of `(x, y)`, wrapped toroidally,
/// in a fixed order: a row-major scan of the 3x3 block around the cell with
/// the center excluded.
pub open spec fn moore_neighbors(g: Seq<u32>, w: int, h: int, x: int, y: int) -> Seq<u32> {
    let xl = wrap_dec(x, w);
    let xr = wrap_inc(x, w);
    let yu = wrap_dec(y, h);
    let yd = wrap_inc(y, h);
    seq![
        cell_at(g, w, xl, yu),
        cell_at(g, w, x, yu),
        cell_at(g, w, xr, yu),
        cell_at(g, w, xl, y),
        cell_at(g, w, xr, y),
        cell_at(g, w, xl, yd),
        cell_at(g, w, x, yd),
        cell_at(g, w, xr, yd),
    ]
}

/// How many of the first `k` entries of `s` equal `v`.
pub open spec fn count_eq_upto(s: Seq<u32>, v: u32, k: int) -> int
    decreases k,
{
    if k <= 0 {
        0
    } else {
        count_eq_upto(s, v, k - 1) + if s[k - 1] == v {
            1int
        } else {
            0int
        }
    }
}

/// How many entries of `s` equal `v`.
pub open spec fn count_eq(s: Seq<u32>, v: u32) -> int {
    count_eq_upto(s, v, s.len() as int)
}

/// The cyclic successor of state `c` among `n` states.
pub open spec fn successor(c: u32, n: u32) -> u32 {
    (((c as int) + 1) % (n as int)) as u32
}

/// The cyclic-automaton rule: a cell at state `c` advances to the cyclic
/// successor of `c` exactly when at least `t` of its neighbors already hold
/// that successor state; otherwise it keeps `c`.
pub open spec fn rule_next(c: u32, neigh: Seq<u32>, n: u32, t: u32) -> u32 {
    if count_eq(neigh, successor(c, n)) >= t {
        successor(c, n)
    } else {
        c
    }
}

/// The state the cell at flat index `i` takes in the next generation.
pub open spec fn step_cell(g: Seq<u32>, w: int, h: int, n: u32, t: u32, i: int) -> u32 {
    rule_next(g[i], moore_neighbors(g, w, h, i % w, i / w), n, t)
}

/// One synchronous generation: every cell of `g` is rewritten by the rule,
/// all of them reading the same old generation.
pub open spec fn step_grid(g: Seq<u32>, w: int, h: int, n: u32, t: u32) -> Seq<u32> {
    Seq::new(g.len(), |i: int| step_cell(g, w, h, n, t, i))
}

/// `k` synchronous generations in a row.
pub open spec fn step_grid_iter(g: Seq<u32>, w: int, h: int, n: u32, t: u32, k: nat) -> Seq<u32>
    decreases k,
{
    if k == 0 {
        g
    } else {
        step_grid(step_grid_iter(g, w, h, n, t, (k - 1) as nat), w, h, n, t)
    }
}

/// A count over a prefix of length `k` lies between `0` and `k`.
pub proof fn lemma_count_upto_le(s: Seq<u32>, v: u32, k: int)
    requires
        0 <= k,
    ensures
        0 <= count_eq_upto(s, v, k) <= k,
    decreases k,
{
    if k > 0 {
        lemma_count_upto_le(s, v, k - 1);
    }
}

/// Row-major indices of in-range coordinates lie inside the grid.
pub proof fn lemma_idx_bounds(w: int, h: int, x: int, y: int)
    requires
        1 <= w,
        1 <= h,
        0 <= x < w,
        0 <= y < h,
    ensures
        0 <= idx_of(w, x, y) < w * h,
{
    assert(0 <= y * w + x < w * h) by (nonlinear_arith)
        requires
            1 <= w,
            1 <= h,
            0 <= x < w,
            0 <= y < h,
    ;
}

/// Splitting a flat index `i` into the column `i % w` and the row `i / w`
/// yields in-range coordinates whose row-major index is `i` again.
pub proof fn lemma_xy_of_idx(w: int, h: int, i: int)
    requires
        1 <= w,
        1 <= h,
        0 <= i < w * h,
    ensures
        0 <= i % w < w,
        0 <= i / w < h,
        idx_of(w, i % w, i / w) == i,
{
    assert(0 <= i % w < w && 0 <= i / w < h && (i / w) * w + i % w == i) by (nonlinear_arith)
        requires
            1 <= w,
            1 <= h,
            0 <= i < w * h,
    ;
}

/// The cyclic successor of an in-range state is in range.
pub proof fn lemma_successor_in_range(c: u32, n: u32)
    requires
        1 <= n,
        c < n,
    ensures
        successor(c, n) < n,
        successor(c, n) == if c + 1 == n {
            0u32
        } else {
            (c + 1) as u32
        },
{
    assert((c as int + 1) % (n as int) == if c as int + 1 == n as int {
        0int
    } else {
        c as int + 1
    }) by (nonlinear_arith)
        requires
            1 <= n,
            c < n,
    ;
}

/// A step keeps every cell inside `[0, n)`: the grid-wide state range is
/// preserved from each reachable generation to the next.
pub proof fn lemma_step_preserves_range(g: Seq<u32>, w: int, h: int, n: u32, t: u32)
    requires
        grid_wf(g, w, h),
        1 <= n,
        states_below(g, n),
    ensures
        step_grid(g, w, h, n, t).len() == g.len(),
        states_below(step_grid(g, w, h, n, t), n),
        grid_wf(step_grid(g, w, h, n, t), w, h),
{
    assert forall|i: int| 0 <= i < g.len() implies step_grid(g, w, h, n, t)[i] < n by {
        lemma_successor_in_range(g[i], n);
    }
}

/// Stepping is deterministic: a step is a pure function of the generation
/// and the parameters, so equal generations step to equal generations.
pub proof fn lemma_step_deterministic(g1: Seq<u32>, g2: Seq<u32>, w: int, h: int, n: u32, t: u32)
    requires
        g1 == g2,
    ensures
        step_grid(g1, w, h, n, t) == step_grid(g2, w, h, n, t),
{
}

/// With a single state the rule is a no-op: one step returns the grid
/// unchanged, whatever the threshold.
pub proof fn lemma_single_state_static(g: Seq<u32>, w: int, h: int, t: u32)
    requires
        grid_wf(g, w, h),
        states_below(g, 1),
    ensures
        step_grid(g, w, h, 1, t) == g,
{
    assert forall|i: int| 0 <= i < g.len() implies step_grid(g, w, h, 1, t)[i] == g[i] by {
        assert(g[i] == 0);
        lemma_successor_in_range(g[i], 1);
    }
    assert(step_grid(g, w, h, 1, t) =~= g);
}

/// With a single state the grid is permanently static: any number of steps
/// returns it unchanged.
pub proof fn lemma_single_state_static_iter(g: Seq<u32>, w: int, h: int, t: u32, k: nat)
    requires
        grid_wf(g, w, h),
        states_below(g, 1),
    ensures
        step_grid_iter(g, w, h, 1, t, k) == g,
    decreases k,
{
    if k > 0 {
        lemma_single_state_static_iter(g, w, h, t, (k - 1) as nat);
        lemma_single_state_static(g, w, h, t);
    }
}

/// A threshold above the neighborhood size of eight can never be met, so one
/// step returns the grid unchanged.
pub proof fn lemma_threshold_unreachable(g: Seq<u32>, w: int, h: int, n: u32, t: u32)
    requires
        grid_wf(g, w, h),
        8 < t,
    ensures
        step_grid(g, w, h, n, t) == g,
{
    assert forall|i: int| 0 <= i < g.len() implies step_grid(g, w, h, n, t)[i] == g[i] by {
        let neigh = moore_neighbors(g, w, h, i % w, i / w);
        assert(neigh.len() == 8);
        lemma_count_upto_le(neigh, successor(g[i], n), 8);
    }
    assert(step_grid(g, w, h, n, t) =~= g);
}

/// Under a threshold above eight the grid is permanently static: any number
/// of steps returns it unchanged.
pub proof fn lemma_threshold_unreachable_iter(g: Seq<u32>, w: int, h: int, n: u32, t: u32, k: nat)
    requires
        grid_wf(g, w, h),
        8 < t,
    ensures
        step_grid_iter(g, w, h, n, t, k) == g,
    decreases k,
{
    if k > 0 {
        lemma_threshold_unreachable_iter(g, w, h, n, t, (k - 1) as nat);
        lemma_threshold_unreachable(g, w, h, n, t);
    }
}

/// How many entries of `s` equal `v`, counted by one pass over `s`.
pub fn count_matching(s: &Vec<u32>, v: u32) -> (r: usize)
    ensures
        r as int == count_eq(s@, v),
        r <= s@.len(),
{
    let mut r: usize = 0;
    let mut i: usize = 0;
    while i < s.len()
        invariant
            i <= s@.len(),
            r <= i,
            r as int == count_eq_upto(s@, v, i as int),
        decreases s@.len() - i,
    {
        if s[i] == v {
            r = r + 1;
        }
        i = i + 1;
    }
    r
}

/// One application of the cyclic rule to a cell at state `c` with the given
/// neighborhood, under `n` states and threshold `t`.
pub fn next_state(c: u32, neigh: &Vec<u32>, n: u32, t: u32) -> (r: u32)
    requires
        1 <= n,
        c < n,
    ensures
        r == rule_next(c, neigh@, n, t),
        r < n,
{
    proof {
        lemma_successor_in_range(c, n);
    }
    let s: u32 = if c + 1 == n {
        0
    } else {
        c + 1
    };
    let cnt: usize = count_matching(neigh, s);
    if cnt >= t as usize {
        s
    } else {
        c
    }
}

/// Row-major flat index of the in-range coordinates `(x, y)`.
pub(crate) fn cell_index(w: u32, h: u32, x: u32, y: u32) -> (r: usize)
    requires
        x < w,
        y < h,
        (w as int) * (h as int) <= usize::MAX,
    ensures
        r as int == idx_of(w as int, x as int, y as int),
        (r as int) < (w as int) * (h as int),
{
    proof {
        lemma_idx_bounds(w as int, h as int, x as int, y as int);
    }
    (y as usize) * (w as usize) + (x as usize)
}

/// The toroidal predecessor coordinate, executable form of `wrap_dec`.
pub(crate) fn wrap_dec_u32(i: u32, m: u32) -> (r: u32)
    requires
        i < m,
    ensures
        r as int == wrap_dec(i as int, m as int),
        r < m,
{
    if i == 0 {
        m - 1
    } else {
        i - 1
    }
}

/// The toroidal successor coordinate, executable form of `wrap_inc`.
pub(crate) fn wrap_inc_u32(i: u32, m: u32) -> (r: u32)
    requires
        i < m,
    ensures
        r as int == wrap_inc(i as int, m as int),
        r < m,
{
    if i == m - 1 {
        0
    } else {
        i + 1
    }
}

/// The eight Moore-neighborhood states of the in-range cell `(x, y)`, in the
/// fixed row-major order of `moore_neighbors`.
pub(crate) fn gather_neighbors(cells: &Vec<u32>, w: u32, h: u32, x: u32, y: u32) -> (r: Vec<u32>)
    requires
        grid_wf(cells@, w as int, h as int),
        x < w,
        y < h,
    ensures
        r@ == moore_neighbors(cells@, w as int, h as int, x as int, y as int),
{
    let len: usize = cells.len();
    assert(len as int == (w as int) * (h as int));
    let xl: u32 = wrap_dec_u32(x, w);
    let xr: u32 = wrap_inc_u32(x, w);
    let yu: u32 = wrap_dec_u32(y, h);
    let yd: u32 = wrap_inc_u32(y, h);
    let mut r: Vec<u32> = Vec::new();
    r.push(cells[cell_index(w, h, xl, yu)]);
    r.push(cells[cell_index(w, h, x, yu)]);
    r.push(cells[cell_index(w, h, xr, yu)]);
    r.push(cells[cell_index(w, h, xl, y)]);
    r.push(cells[cell_index(w, h, xr, y)]);
    r.push(cells[cell_index(w, h, xl, yd)]);
    r.push(cells[cell_index(w, h, x, yd)]);
    r.push(cells[cell_index(w, h, xr, yd)]);
    assert(r@ =~= moore_neighbors(cells@, w as int, h as int, x as int, y as int));
    r
}

/// The next-generation state of the cell at flat index `i`, read from the
/// frozen current generation `cells`.
pub fn step_cell_at(cells: &Vec<u32>, w: u32, h: u32, n: u32, t: u32, i: usize) -> (r: u32)
    requires
        grid_wf(cells@, w as int, h as int),
        1 <= n,
        states_below(cells@, n),
        i < cells@.len(),
    ensures
        r == step_cell(cells@, w as int, h as int, n, t, i as int),
        r < n,
{
    proof {
        lemma_xy_of_idx(w as int, h as int, i as int);
    }
    let x: u32 = (i % (w as usize)) as u32;
    let y: u32 = (i / (w as usize)) as u32;
    let neigh = gather_neighbors(cells, w, h, x, y);
    next_state(cells[i], &neigh, n, t)
}

} // verus!
