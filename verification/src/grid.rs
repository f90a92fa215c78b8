//! The double-buffered toroidal grid: per-cell storage, the wrapped Moore
//! topology, and the buffer swap that publishes a freshly written generation.

use vstd::prelude::*;
use vstd::pervasive::VecAdditionalExecFns;

use crate::AutomatonError;
use crate::rule::{cell_at, cell_index, gather_neighbors, grid_wf, moore_neighbors};

verus! {

/// A fixed-size 2-D grid of cell states, stored row-major, with a second
/// backing buffer so that one generation can be read while the next one is
/// written, never mixing the two.
#[derive(Debug)]
pub struct Grid {
    width: u32,
    height: u32,
    cells: Vec<u32>,
    next: Vec<u32>,
}

impl View for Grid {
    type V = Seq<u32>;

    /// The current generation, as a flat row-major sequence of states.
    closed spec fn view(&self) -> Seq<u32> {
        self.cells@
    }
}

impl Grid {
    /// The grid width, as a mathematical integer.
    pub closed spec fn spec_width(&self) -> int {
        self.width as int
    }

    /// The grid height, as a mathematical integer.
    pub closed spec fn spec_height(&self) -> int {
        self.height as int
    }

    /// The "next" backing buffer, written by the step engine and published by
    /// `swap_buffers`.
    pub closed spec fn back(&self) -> Seq<u32> {
        self.next@
    }

    /// Well-formedness: positive dimensions, and both buffers exactly
    /// `width * height` cells long.
    pub open spec fn wf(&self) -> bool {
        &&& grid_wf(self@, self.spec_width(), self.spec_height())
        &&& self.back().len() == self@.len()
    }

    /// The grid width in cells.
    pub fn width(&self) -> (r: u32)
        ensures
            r as int == self.spec_width(),
    {
        self.width
    }

    /// The grid height in cells.
    pub fn height(&self) -> (r: u32)
        ensures
            r as int == self.spec_height(),
    {
        self.height
    }

    /// How many cells the grid holds.
    pub fn len(&self) -> (r: usize)
        ensures
            r as int == self@.len(),
    {
        self.cells.len()
    }

    /// Builds a grid from explicit initial cell states. Fails with
    /// `AutomatonError::Dimension` exactly when a dimension is zero or the
    /// initial data does not hold one state per cell.
    pub fn create(width: u32, height: u32, initial_states: Vec<u32>) -> (r: Result<
        Grid,
        AutomatonError,
    >)
        ensures
            r is Err <==> (width == 0 || height == 0 || initial_states@.len() != (width as int)
                * (height as int)),
            r is Err ==> r == Result::<Grid, AutomatonError>::Err(AutomatonError::Dimension),
            r is Ok ==> {
                let g = r.unwrap();
                &&& g.wf()
                &&& g.spec_width() == width as int
                &&& g.spec_height() == height as int
                &&& g@ == initial_states@
            },
    {
        if width == 0 || height == 0 {
            return Err(AutomatonError::Dimension);
        }
        assert((width as int) * (height as int) <= u64::MAX) by (nonlinear_arith)
            requires
                width <= u32::MAX,
                height <= u32::MAX,
        ;
        let area64: u64 = (width as u64) * (height as u64);
        if (initial_states.len() as u64) != area64 {
            return Err(AutomatonError::Dimension);
        }
        let next = zero_buffer(initial_states.len());
        Ok(Grid { width, height, cells: initial_states, next })
    }

    /// Reads a cell of the current generation. The coordinates are wrapped
    /// modulo the dimensions first, so no coordinate is out of range.
    pub fn get(&self, x: u32, y: u32) -> (r: u32)
        requires
            self.wf(),
        ensures
            r == cell_at(
                self@,
                self.spec_width(),
                (x as int) % self.spec_width(),
                (y as int) % self.spec_height(),
            ),
    {
        let xm: u32 = x % self.width;
        let ym: u32 = y % self.height;
        let len: usize = self.cells.len();
        let i: usize = cell_index(self.width, self.height, xm, ym);
        self.cells[i]
    }

    /// The eight Moore-neighborhood states of a cell of the current
    /// generation, wrapped toroidally, in a fixed row-major order. The
    /// coordinates themselves are wrapped modulo the dimensions first.
    pub fn neighbors(&self, x: u32, y: u32) -> (r: Vec<u32>)
        requires
            self.wf(),
        ensures
            r@ == moore_neighbors(
                self@,
                self.spec_width(),
                self.spec_height(),
                (x as int) % self.spec_width(),
                (y as int) % self.spec_height(),
            ),
            r@.len() == 8,
    {
        let xm: u32 = x % self.width;
        let ym: u32 = y % self.height;
        gather_neighbors(&self.cells, self.width, self.height, xm, ym)
    }

    /// The backing storage of the current generation, for the step engine to
    /// read as its frozen snapshot.
    pub(crate) fn current(&self) -> (r: &Vec<u32>)
        ensures
            r@ == self@,
    {
        &self.cells
    }

    /// Exchanges the current and next buffers: the freshly written next
    /// generation becomes current, and the retired one becomes scratch.
    pub fn swap_buffers(&mut self)
        requires
            old(self).wf(),
        ensures
            final(self).wf(),
            final(self)@ == old(self).back(),
            final(self).back() == old(self)@,
            final(self).spec_width() == old(self).spec_width(),
            final(self).spec_height() == old(self).spec_height(),
    {
        core::mem::swap(&mut self.cells, &mut self.next);
    }

    /// Hands a freshly computed generation to the grid as its next buffer,
    /// leaving the current generation untouched until `swap_buffers`.
    pub(crate) fn store_next(&mut self, data: Vec<u32>)
        requires
            old(self).wf(),
            data@.len() == old(self)@.len(),
        ensures
            final(self).wf(),
            final(self)@ == old(self)@,
            final(self).back() == data@,
            final(self).spec_width() == old(self).spec_width(),
            final(self).spec_height() == old(self).spec_height(),
    {
        self.next = data;
    }

    /// Clamps every current cell into `[0, n)` by reducing it modulo `n`; a
    /// cell already below `n` is left unchanged.
    pub(crate) fn reduce_states(&mut self, n: u32)
        requires
            old(self).wf(),
            1 <= n,
        ensures
            final(self).wf(),
            final(self)@.len() == old(self)@.len(),
            forall|i: int| 0 <= i < old(self)@.len() ==> final(self)@[i] == old(self)@[i] % n,
            final(self).back() == old(self).back(),
            final(self).spec_width() == old(self).spec_width(),
            final(self).spec_height() == old(self).spec_height(),
    {
        let len: usize = self.cells.len();
        let mut i: usize = 0;
        while i < len
            invariant
                self.width == old(self).width,
                self.height == old(self).height,
                self.next == old(self).next,
                i <= len,
                len as int == old(self)@.len(),
                self.cells@.len() == old(self)@.len(),
                1 <= n,
                forall|j: int| 0 <= j < i ==> self.cells@[j] == old(self)@[j] % n,
                forall|j: int| i <= j < len ==> self.cells@[j] == old(self)@[j],
            decreases len - i,
        {
            let v: u32 = self.cells[i];
            self.cells.set(i, v % n);
            i = i + 1;
        }
    }
}

/// A buffer of `len` zero states.
pub(crate) fn zero_buffer(len: usize) -> (r: Vec<u32>)
    ensures
        r@.len() == len,
        forall|i: int| 0 <= i < len ==> r@[i] == 0u32,
{
    let mut r: Vec<u32> = Vec::new();
    let mut i: usize = 0;
    while i < len
        invariant
            i <= len,
            r@.len() == i,
            forall|j: int| 0 <= j < i ==> r@[j] == 0u32,
        decreases len - i,
    {
        r.push(0);
        i = i + 1;
    }
    r
}

} // verus!
