//! The dynamical system: one grid and one automaton parameter pair, owned as a
//! single mutable unit, advanced one synchronous generation at a time through
//! the selected backend, and colorized for the visualization layer.

use vstd::prelude::*;

use rand::Rng;

use crate::AutomatonError;
use crate::color::{pixel_spec, to_pixel, ColorMode, Rgba};
use crate::engine::{
    encode_spec, encode_upload, lemma_backends_agree, par_step_cells, run_dispatch,
    upload_wf, workgroup_count, Backend, DeviceHandle,
};
use crate::grid::{zero_buffer, Grid};
use crate::rule::{cell_at, grid_wf, lemma_step_preserves_range, states_below, step_grid};

verus! {

/// The automaton parameters: how many cyclic states a cell can hold, and how
/// many matching neighbors a transition needs.
#[derive(Clone, Copy, Debug, PartialEq, Eq, Structural)]
pub struct Params {
    pub state_count: u32,
    pub threshold: u32,
}

impl Params {
    /// Valid parameters: at least one state and a threshold of at least one.
    pub open spec fn wf(&self) -> bool {
        1 <= self.state_count && 1 <= self.threshold
    }
}

/// How the initial generation is filled at construction.
#[derive(Clone, Copy, Debug, PartialEq, Eq, Structural)]
pub enum FillPolicy {
    /// Every cell starts at state zero.
    Zero,
    /// Every cell starts at an independent uniform draw over the states.
    UniformRandom,
}

/// Relies on `rand::thread_rng` and `rand::Rng::gen_range` over `0..n`: for a
/// positive `n` the range is non-empty, so the call does not panic and returns
/// a value inside `[0, n)`. Nothing more is claimed of the draw: it is random.
#[verifier::external_body]
fn random_state_below(n: u32) -> (r: u32)
    requires
        1 <= n,
    ensures
        r < n,
{
    rand::thread_rng().gen_range(0..n)
}

/// A fresh initial generation of `len` cells under the fill policy: all zero,
/// or every cell an independent draw over `[0, n)`.
fn initial_buffer(len: usize, n: u32, fill: FillPolicy) -> (r: Vec<u32>)
    requires
        1 <= n,
    ensures
        r@.len() == len,
        states_below(r@, n),
        fill == FillPolicy::Zero ==> forall|i: int| 0 <= i < len ==> r@[i] == 0u32,
{
    match fill {
        FillPolicy::Zero => zero_buffer(len),
        FillPolicy::UniformRandom => {
            let mut r: Vec<u32> = Vec::new();
            let mut i: usize = 0;
            while i < len
                invariant
                    i <= len,
                    r@.len() == i,
                    1 <= n,
                    states_below(r@, n),
                decreases len - i,
            {
                r.push(random_state_below(n));
                i = i + 1;
            }
            r
        },
    }
}

/// One grid of cell states plus one parameter pair: the single owned, mutable
/// automaton the host application holds and advances once per tick.
#[derive(Debug)]
pub struct DynamicalSystem {
    grid: Grid,
    params: Params,
    backend: Backend,
    device: Option<DeviceHandle>,
    mode: ColorMode,
    in_flight: bool,
}

impl DynamicalSystem {
    /// The current generation, as a flat row-major sequence of states.
    pub closed spec fn state(&self) -> Seq<u32> {
        self.grid@
    }

    /// The grid width, as a mathematical integer.
    pub closed spec fn spec_width(&self) -> int {
        self.grid.spec_width()
    }

    /// The grid height, as a mathematical integer.
    pub closed spec fn spec_height(&self) -> int {
        self.grid.spec_height()
    }

    /// The current automaton parameters.
    pub closed spec fn spec_params(&self) -> Params {
        self.params
    }

    /// The selected step backend.
    pub closed spec fn spec_backend(&self) -> Backend {
        self.backend
    }

    /// The selected colorizer mode.
    pub closed spec fn spec_mode(&self) -> ColorMode {
        self.mode
    }

    /// Whether a device step has been begun and not yet finished.
    pub closed spec fn spec_in_flight(&self) -> bool {
        self.in_flight
    }

    /// The private half of well-formedness: the double buffer is intact, and
    /// the device backend holds a usable device capability.
    pub closed spec fn backing_ok(&self) -> bool {
        &&& self.grid.wf()
        &&& self.device is Some ==> self.device.unwrap().wf()
        &&& self.backend == Backend::Device ==> self.device is Some
    }

    /// Well-formedness, the grid-wide invariant of the automaton: a
    /// non-degenerate grid, valid parameters, and every cell state inside
    /// `[0, state_count)`.
    pub open spec fn wf(&self) -> bool {
        &&& self.backing_ok()
        &&& grid_wf(self.state(), self.spec_width(), self.spec_height())
        &&& self.spec_params().wf()
        &&& states_below(self.state(), self.spec_params().state_count)
    }

    /// Builds the automaton: a `width` by `height` toroidal grid filled by the
    /// fill policy, the given parameters, and the selected backend. Fails with
    /// `Dimension` when a dimension is zero (or the cell count cannot be
    /// addressed on this machine), with `InvalidStateCount` when the state
    /// count is zero, and with `DeviceUnavailable` when the device backend is
    /// selected without a device capability.
    pub fn create(
        width: u32,
        height: u32,
        state_count: u32,
        threshold: u32,
        fill: FillPolicy,
        backend: Backend,
        device: Option<DeviceHandle>,
    ) -> (r: Result<DynamicalSystem, AutomatonError>)
        requires
            1 <= threshold,
            device is Some ==> device.unwrap().wf(),
        ensures
            (width == 0 || height == 0 || (width as int) * (height as int) > usize::MAX) ==> r
                == Result::<DynamicalSystem, AutomatonError>::Err(AutomatonError::Dimension),
            (width > 0 && height > 0 && (width as int) * (height as int) <= usize::MAX
                && state_count == 0) ==> r == Result::<DynamicalSystem, AutomatonError>::Err(
                AutomatonError::InvalidStateCount,
            ),
            (width > 0 && height > 0 && (width as int) * (height as int) <= usize::MAX && 1
                <= state_count && backend == Backend::Device && device is None) ==> r
                == Result::<DynamicalSystem, AutomatonError>::Err(AutomatonError::DeviceUnavailable),
            (width > 0 && height > 0 && (width as int) * (height as int) <= usize::MAX && 1
                <= state_count && (backend == Backend::Host || device is Some)) ==> r is Ok,
            r is Ok ==> {
                let s = r.unwrap();
                &&& s.wf()
                &&& s.spec_width() == width as int
                &&& s.spec_height() == height as int
                &&& s.spec_params() == (Params { state_count, threshold })
                &&& s.spec_backend() == backend
                &&& s.spec_mode() == ColorMode::Colormap
                &&& !s.spec_in_flight()
                &&& s.state().len() == (width as int) * (height as int)
                &&& fill == FillPolicy::Zero ==> forall|i: int|
                    0 <= i < s.state().len() ==> s.state()[i] == 0u32
            },
    {
        assert((width as int) * (height as int) <= u64::MAX) by (nonlinear_arith)
            requires
                width <= u32::MAX,
                height <= u32::MAX,
        ;
        let area64: u64 = (width as u64) * (height as u64);
        if width == 0 || height == 0 || area64 > (usize::MAX as u64) {
            return Err(AutomatonError::Dimension);
        }
        if state_count == 0 {
            return Err(AutomatonError::InvalidStateCount);
        }
        if matches!(backend, Backend::Device) && device.is_none() {
            return Err(AutomatonError::DeviceUnavailable);
        }
        let area: usize = area64 as usize;
        let initial = initial_buffer(area, state_count, fill);
        match Grid::create(width, height, initial) {
            Ok(grid) => Ok(
                DynamicalSystem {
                    grid,
                    params: Params { state_count, threshold },
                    backend,
                    device,
                    mode: ColorMode::Colormap,
                    in_flight: false,
                },
            ),
            Err(e) => {
                proof {
                    assert(false);
                }
                Err(e)
            },
        }
    }

    /// Builds the automaton from explicit initial cell states. Fails with
    /// `Dimension` when a dimension is zero or the data does not hold one
    /// state per cell, with `InvalidStateCount` when the state count is zero
    /// or some initial state lies outside it, and with `DeviceUnavailable`
    /// when the device backend is selected without a device capability.
    pub fn from_cells(
        width: u32,
        height: u32,
        initial_states: Vec<u32>,
        state_count: u32,
        threshold: u32,
        backend: Backend,
        device: Option<DeviceHandle>,
    ) -> (r: Result<DynamicalSystem, AutomatonError>)
        requires
            1 <= threshold,
            device is Some ==> device.unwrap().wf(),
        ensures
            (width == 0 || height == 0 || initial_states@.len() != (width as int)
                * (height as int)) ==> r == Result::<DynamicalSystem, AutomatonError>::Err(
                AutomatonError::Dimension,
            ),
            (width > 0 && height > 0 && initial_states@.len() == (width as int) * (height as int)
                && (state_count == 0 || !states_below(initial_states@, state_count))) ==> r
                == Result::<DynamicalSystem, AutomatonError>::Err(AutomatonError::InvalidStateCount),
            (width > 0 && height > 0 && initial_states@.len() == (width as int) * (height as int)
                && 1 <= state_count && states_below(initial_states@, state_count) && backend
                == Backend::Device && device is None) ==> r
                == Result::<DynamicalSystem, AutomatonError>::Err(AutomatonError::DeviceUnavailable),
            (width > 0 && height > 0 && initial_states@.len() == (width as int) * (height as int)
                && 1 <= state_count && states_below(initial_states@, state_count) && (backend
                == Backend::Host || device is Some)) ==> r is Ok,
            r is Ok ==> {
                let s = r.unwrap();
                &&& s.wf()
                &&& s.spec_width() == width as int
                &&& s.spec_height() == height as int
                &&& s.state() == initial_states@
                &&& s.spec_params() == (Params { state_count, threshold })
                &&& s.spec_backend() == backend
                &&& s.spec_mode() == ColorMode::Colormap
                &&& !s.spec_in_flight()
            },
    {
        assert((width as int) * (height as int) <= u64::MAX) by (nonlinear_arith)
            requires
                width <= u32::MAX,
                height <= u32::MAX,
        ;
        let area64: u64 = (width as u64) * (height as u64);
        if width == 0 || height == 0 || (initial_states.len() as u64) != area64 {
            return Err(AutomatonError::Dimension);
        }
        if state_count == 0 {
            return Err(AutomatonError::InvalidStateCount);
        }
        let len: usize = initial_states.len();
        let mut i: usize = 0;
        while i < len
            invariant
                i <= len,
                len == initial_states@.len(),
                width > 0,
                height > 0,
                initial_states@.len() == (width as int) * (height as int),
                1 <= state_count,
                forall|j: int| 0 <= j < i ==> initial_states@[j] < state_count,
            decreases len - i,
        {
            if initial_states[i] >= state_count {
                assert(!states_below(initial_states@, state_count)) by {
                    assert(initial_states@[i as int] >= state_count);
                }
                return Err(AutomatonError::InvalidStateCount);
            }
            i = i + 1;
        }
        if matches!(backend, Backend::Device) && device.is_none() {
            return Err(AutomatonError::DeviceUnavailable);
        }
        match Grid::create(width, height, initial_states) {
            Ok(grid) => Ok(
                DynamicalSystem {
                    grid,
                    params: Params { state_count, threshold },
                    backend,
                    device,
                    mode: ColorMode::Colormap,
                    in_flight: false,
                },
            ),
            Err(e) => {
                proof {
                    assert(false);
                }
                Err(e)
            },
        }
    }

    /// The grid width in cells.
    pub fn width(&self) -> (r: u32)
        ensures
            r as int == self.spec_width(),
    {
        self.grid.width()
    }

    /// The grid height in cells.
    pub fn height(&self) -> (r: u32)
        ensures
            r as int == self.spec_height(),
    {
        self.grid.height()
    }

    /// The current automaton parameters.
    pub fn params(&self) -> (r: Params)
        ensures
            r == self.spec_params(),
    {
        self.params
    }

    /// The selected backend.
    pub fn backend(&self) -> (r: Backend)
        ensures
            r == self.spec_backend(),
    {
        self.backend
    }

    /// The selected colorizer mode.
    pub fn color_mode(&self) -> (r: ColorMode)
        ensures
            r == self.spec_mode(),
    {
        self.mode
    }

    /// Whether a device step is in flight.
    pub fn is_in_flight(&self) -> (r: bool)
        ensures
            r == self.spec_in_flight(),
    {
        self.in_flight
    }

    /// Reads one cell of the current generation, the coordinates wrapped
    /// modulo the dimensions.
    pub fn get(&self, x: u32, y: u32) -> (r: u32)
        requires
            self.wf(),
        ensures
            r == cell_at(
                self.state(),
                self.spec_width(),
                (x as int) % self.spec_width(),
                (y as int) % self.spec_height(),
            ),
    {
        self.grid.get(x, y)
    }

    /// Selects the colorizer mode for `advance_and_colorize`.
    pub fn set_color_mode(&mut self, mode: ColorMode)
        requires
            old(self).wf(),
        ensures
            final(self).wf(),
            final(self).spec_mode() == mode,
            final(self).state() == old(self).state(),
            final(self).spec_params() == old(self).spec_params(),
            final(self).spec_backend() == old(self).spec_backend(),
            final(self).spec_in_flight() == old(self).spec_in_flight(),
            final(self).spec_width() == old(self).spec_width(),
            final(self).spec_height() == old(self).spec_height(),
    {
        self.mode = mode;
    }

    /// Selects the step backend, keeping the grid's cell values. Fails with
    /// `DeviceUnavailable` exactly when the device backend is requested, no
    /// capability is passed, and none is already held.
    pub fn set_backend(&mut self, backend: Backend, device: Option<DeviceHandle>) -> (r: Result<
        (),
        AutomatonError,
    >)
        requires
            old(self).wf(),
            device is Some ==> device.unwrap().wf(),
        ensures
            final(self).wf(),
            r is Err ==> *final(self) == *old(self) && r == Result::<(), AutomatonError>::Err(
                AutomatonError::DeviceUnavailable,
            ),
            r is Ok ==> final(self).spec_backend() == backend,
            backend == Backend::Host ==> r is Ok,
            device is Some ==> r is Ok,
            final(self).state() == old(self).state(),
            final(self).spec_params() == old(self).spec_params(),
            final(self).spec_mode() == old(self).spec_mode(),
            final(self).spec_in_flight() == old(self).spec_in_flight(),
            final(self).spec_width() == old(self).spec_width(),
            final(self).spec_height() == old(self).spec_height(),
    {
        match device {
            Some(d) => {
                self.device = Some(d);
            },
            None => {
                if matches!(backend, Backend::Device) && self.device.is_none() {
                    return Err(AutomatonError::DeviceUnavailable);
                }
            },
        }
        self.backend = backend;
        Ok(())
    }

    /// Replaces the automaton parameters; the change takes effect on the next
    /// step. Fails with `InvalidStateCount` exactly when the new state count
    /// is zero. When the state count shrinks, every cell is clamped into the
    /// new range by reduction modulo the new count before the next step; when
    /// it does not shrink, every cell keeps its value.
    pub fn set_parameters(&mut self, state_count: u32, threshold: u32) -> (r: Result<
        (),
        AutomatonError,
    >)
        requires
            old(self).wf(),
            1 <= threshold,
        ensures
            final(self).wf(),
            state_count == 0 ==> r == Result::<(), AutomatonError>::Err(
                AutomatonError::InvalidStateCount,
            ) && *final(self) == *old(self),
            1 <= state_count ==> {
                &&& r is Ok
                &&& final(self).spec_params() == (Params { state_count, threshold })
                &&& final(self).state().len() == old(self).state().len()
                &&& state_count < old(self).spec_params().state_count ==> forall|i: int|
                    0 <= i < old(self).state().len() ==> final(self).state()[i] == old(
                        self,
                    ).state()[i] % state_count
                &&& forall|i: int|
                    0 <= i < old(self).state().len() && old(self).state()[i] < state_count
                        ==> final(self).state()[i] == old(self).state()[i]
                &&& state_count >= old(self).spec_params().state_count ==> final(self).state()
                    == old(self).state()
            },
            final(self).spec_backend() == old(self).spec_backend(),
            final(self).spec_mode() == old(self).spec_mode(),
            final(self).spec_in_flight() == old(self).spec_in_flight(),
            final(self).spec_width() == old(self).spec_width(),
            final(self).spec_height() == old(self).spec_height(),
    {
        if state_count == 0 {
            return Err(AutomatonError::InvalidStateCount);
        }
        if state_count < self.params.state_count {
            self.grid.reduce_states(state_count);
            assert forall|i: int| 0 <= i < self.state().len() implies self.state()[i]
                < state_count by {
                assert(self.state()[i] == old(self).state()[i] % state_count);
            }
            assert forall|i: int|
                0 <= i < old(self).state().len() && old(self).state()[i]
                    < state_count implies self.state()[i] == old(self).state()[i] by {
                vstd::arithmetic::div_mod::lemma_small_mod(
                    old(self).state()[i] as nat,
                    state_count as nat,
                );
            }
        }
        self.params = Params { state_count, threshold };
        Ok(())
    }

    /// Advances the grid exactly one synchronous generation through the
    /// selected backend: every cell of the next generation is the rule applied
    /// to the frozen current one, published by a single buffer swap. Fails
    /// with `StepInProgress`, changing nothing, exactly when a device step is
    /// still in flight.
    pub fn step(&mut self) -> (r: Result<(), AutomatonError>)
        requires
            old(self).wf(),
        ensures
            final(self).wf(),
            old(self).spec_in_flight() ==> r == Result::<(), AutomatonError>::Err(
                AutomatonError::StepInProgress,
            ) && *final(self) == *old(self),
            !old(self).spec_in_flight() ==> {
                &&& r is Ok
                &&& final(self).state() == step_grid(
                    old(self).state(),
                    old(self).spec_width(),
                    old(self).spec_height(),
                    old(self).spec_params().state_count,
                    old(self).spec_params().threshold,
                )
                &&& !final(self).spec_in_flight()
            },
            final(self).spec_params() == old(self).spec_params(),
            final(self).spec_backend() == old(self).spec_backend(),
            final(self).spec_mode() == old(self).spec_mode(),
            final(self).spec_width() == old(self).spec_width(),
            final(self).spec_height() == old(self).spec_height(),
    {
        if self.in_flight {
            return Err(AutomatonError::StepInProgress);
        }
        let w: u32 = self.grid.width();
        let h: u32 = self.grid.height();
        let n: u32 = self.params.state_count;
        let t: u32 = self.params.threshold;
        let next: Vec<u32> = match self.backend {
            Backend::Host => par_step_cells(self.grid.current(), w, h, n, t),
            Backend::Device => {
                let wgs: usize = match self.device {
                    Some(d) => d.workgroup_size(),
                    None => {
                        proof {
                            assert(false);
                        }
                        1
                    },
                };
                let upload = encode_upload(self.grid.current(), w, h, n, t);
                let groups: usize = workgroup_count(self.grid.len(), wgs);
                let readback = run_dispatch(&upload, groups, wgs);
                proof {
                    lemma_backends_agree(self.state(), w, h, n, t);
                }
                readback
            },
        };
        proof {
            lemma_step_preserves_range(
                self.state(),
                self.spec_width(),
                self.spec_height(),
                n,
                t,
            );
        }
        self.grid.store_next(next);
        self.grid.swap_buffers();
        Ok(())
    }

    /// Begins an asynchronous device step: marks the step in flight and hands
    /// the caller the upload buffer (header and frozen generation) to dispatch
    /// on its device. Fails with `StepInProgress`, changing nothing, exactly
    /// when a step is already in flight.
    pub fn begin_device_step(&mut self) -> (r: Result<Vec<u32>, AutomatonError>)
        requires
            old(self).wf(),
        ensures
            final(self).wf(),
            old(self).spec_in_flight() ==> r == Result::<Vec<u32>, AutomatonError>::Err(
                AutomatonError::StepInProgress,
            ) && *final(self) == *old(self),
            !old(self).spec_in_flight() ==> {
                &&& r is Ok
                &&& r.unwrap()@ == encode_spec(
                    old(self).state(),
                    old(self).spec_width() as u32,
                    old(self).spec_height() as u32,
                    old(self).spec_params().state_count,
                    old(self).spec_params().threshold,
                )
                &&& upload_wf(r.unwrap()@)
                &&& final(self).spec_in_flight()
            },
            final(self).state() == old(self).state(),
            final(self).spec_params() == old(self).spec_params(),
            final(self).spec_backend() == old(self).spec_backend(),
            final(self).spec_mode() == old(self).spec_mode(),
            final(self).spec_width() == old(self).spec_width(),
            final(self).spec_height() == old(self).spec_height(),
    {
        if self.in_flight {
            return Err(AutomatonError::StepInProgress);
        }
        let upload = encode_upload(
            self.grid.current(),
            self.grid.width(),
            self.grid.height(),
            self.params.state_count,
            self.params.threshold,
        );
        self.in_flight = true;
        Ok(upload)
    }

    /// Finishes an asynchronous device step with the readback buffer: the
    /// readback becomes the next generation and is published by one buffer
    /// swap. The step is over either way: on a readback of the wrong length
    /// (`Dimension`) or holding an out-of-range state (`InvalidStateCount`,
    /// rejected at the write boundary to keep the grid invariant), the step
    /// fails and the prior generation stays intact.
    pub fn finish_device_step(&mut self, readback: Vec<u32>) -> (r: Result<(), AutomatonError>)
        requires
            old(self).wf(),
            old(self).spec_in_flight(),
        ensures
            final(self).wf(),
            !final(self).spec_in_flight(),
            readback@.len() != old(self).state().len() ==> r == Result::<(), AutomatonError>::Err(
                AutomatonError::Dimension,
            ) && final(self).state() == old(self).state(),
            readback@.len() == old(self).state().len() && !states_below(
                readback@,
                old(self).spec_params().state_count,
            ) ==> r == Result::<(), AutomatonError>::Err(AutomatonError::InvalidStateCount)
                && final(self).state() == old(self).state(),
            readback@.len() == old(self).state().len() && states_below(
                readback@,
                old(self).spec_params().state_count,
            ) ==> r is Ok && final(self).state() == readback@,
            final(self).spec_params() == old(self).spec_params(),
            final(self).spec_backend() == old(self).spec_backend(),
            final(self).spec_mode() == old(self).spec_mode(),
            final(self).spec_width() == old(self).spec_width(),
            final(self).spec_height() == old(self).spec_height(),
    {
        self.in_flight = false;
        let len: usize = self.grid.len();
        if readback.len() != len {
            return Err(AutomatonError::Dimension);
        }
        let n: u32 = self.params.state_count;
        let mut i: usize = 0;
        while i < len
            invariant
                i <= len,
                len == readback@.len(),
                forall|j: int| 0 <= j < i ==> readback@[j] < n,
                old(self).wf(),
                self.grid == old(self).grid,
                self.params == old(self).params,
                self.backend == old(self).backend,
                self.device == old(self).device,
                self.mode == old(self).mode,
                !self.in_flight,
                n == self.params.state_count,
                len == old(self).state().len(),
            decreases len - i,
        {
            if readback[i] >= n {
                assert(!states_below(readback@, n)) by {
                    assert(readback@[i as int] >= n);
                }
                return Err(AutomatonError::InvalidStateCount);
            }
            i = i + 1;
        }
        self.grid.store_next(readback);
        self.grid.swap_buffers();
        Ok(())
    }

    /// Colorizes the current generation: one pixel per cell, row-major, under
    /// the selected colorizer mode.
    pub fn colorize(&self) -> (r: Vec<Rgba>)
        requires
            self.wf(),
            self.spec_mode() == ColorMode::Colormap ==> self.spec_params().state_count < u32::MAX,
        ensures
            r@.len() == self.state().len(),
            forall|i: int|
                0 <= i < r@.len() ==> r@[i] == pixel_spec(
                    self.state()[i],
                    self.spec_params().state_count,
                    self.spec_mode(),
                ),
    {
        let n: u32 = self.params.state_count;
        let mode = self.mode;
        let cells = self.grid.current();
        let len: usize = cells.len();
        let mut out: Vec<Rgba> = Vec::new();
        let mut i: usize = 0;
        while i < len
            invariant
                i <= len,
                out@.len() == i,
                len == cells@.len(),
                cells@ == self.state(),
                1 <= n,
                n == self.spec_params().state_count,
                mode == self.spec_mode(),
                states_below(cells@, n),
                mode == ColorMode::Colormap ==> n < u32::MAX,
                forall|j: int| 0 <= j < i ==> out@[j] == pixel_spec(cells@[j], n, mode),
            decreases len - i,
        {
            let px: Rgba = match to_pixel(cells[i], n, mode) {
                Ok(p) => p,
                Err(_) => {
                    proof {
                        assert(false);
                    }
                    Rgba { r: 0, g: 0, b: 0, a: 0 }
                },
            };
            out.push(px);
            i = i + 1;
        }
        out
    }

    /// The per-tick operation for the visualization layer: advances one
    /// generation through the selected backend,
    /// then colorizes the fresh generation: one RGBA pixel per cell,
    /// row-major. Fails with `StepInProgress`, changing nothing, exactly when
    /// a device step is still in flight.
    pub fn advance_and_colorize(&mut self) -> (r: Result<Vec<Rgba>, AutomatonError>)
        requires
            old(self).wf(),
            old(self).spec_mode() == ColorMode::Colormap ==> old(
                self,
            ).spec_params().state_count < u32::MAX,
        ensures
            final(self).wf(),
            old(self).spec_in_flight() ==> r == Result::<Vec<Rgba>, AutomatonError>::Err(
                AutomatonError::StepInProgress,
            ) && *final(self) == *old(self),
            !old(self).spec_in_flight() ==> {
                &&& r is Ok
                &&& final(self).state() == step_grid(
                    old(self).state(),
                    old(self).spec_width(),
                    old(self).spec_height(),
                    old(self).spec_params().state_count,
                    old(self).spec_params().threshold,
                )
                &&& r.unwrap()@.len() == final(self).state().len()
                &&& forall|i: int|
                    0 <= i < r.unwrap()@.len() ==> r.unwrap()@[i] == pixel_spec(
                        final(self).state()[i],
                        old(self).spec_params().state_count,
                        old(self).spec_mode(),
                    )
            },
            final(self).spec_params() == old(self).spec_params(),
            final(self).spec_backend() == old(self).spec_backend(),
            final(self).spec_mode() == old(self).spec_mode(),
            final(self).spec_width() == old(self).spec_width(),
            final(self).spec_height() == old(self).spec_height(),
    {
        match self.step() {
            Err(e) => Err(e),
            Ok(()) => Ok(self.colorize()),
        }
    }
}

} // verus!
