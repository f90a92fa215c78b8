//! The two step backends. The host-parallel backend fans the verified
//! per-cell rule out over compute workers. The device-parallel backend models
//! a compute dispatch: the generation and the parameters are serialized into
//! an upload buffer, a grid of fixed-size workgroups runs the rule-evaluation
//! kernel over it (out-of-range invocations masked to no-ops), and the
//! readback holds the next generation.

use vstd::prelude::*;

use rayon::iter::{IndexedParallelIterator, IntoParallelIterator, ParallelIterator};

use crate::rule::{
    cell_index, grid_wf, lemma_xy_of_idx, moore_neighbors, next_state, states_below, step_cell,
    step_grid, wrap_dec_u32, wrap_inc_u32,
};

verus! {

/// Which execution strategy the step engine uses.
#[derive(Clone, Copy, Debug, PartialEq, Eq, Structural)]
pub enum Backend {
    /// A data-parallel pass over the cells on the host's compute cores.
    Host,
    /// A buffer upload, a workgroup dispatch and a readback on a device.
    Device,
}

/// An opaque capability for dispatching device-parallel work, obtained once by
/// the host application. It fixes the workgroup size dispatches are cut into.
#[derive(Clone, Copy, Debug)]
pub struct DeviceHandle {
    workgroup_size: usize,
}

impl DeviceHandle {
    /// The fixed number of kernel invocations per workgroup.
    pub closed spec fn spec_workgroup_size(&self) -> int {
        self.workgroup_size as int
    }

    /// A usable device executes at least one invocation per workgroup.
    pub open spec fn wf(&self) -> bool {
        1 <= self.spec_workgroup_size()
    }

    /// Obtains a device capability. A workgroup size of zero means no usable
    /// device execution context is available.
    pub fn acquire(workgroup_size: usize) -> (r: Option<DeviceHandle>)
        ensures
            r is None <==> workgroup_size == 0,
            r is Some ==> r.unwrap().wf() && r.unwrap().spec_workgroup_size()
                == workgroup_size as int,
    {
        if workgroup_size == 0 {
            None
        } else {
            Some(DeviceHandle { workgroup_size })
        }
    }

    /// The workgroup size this capability was created with.
    pub fn workgroup_size(&self) -> (r: usize)
        ensures
            r as int == self.spec_workgroup_size(),
    {
        self.workgroup_size
    }
}

/// The host-parallel pass: computes the whole next generation from the frozen
/// current one, fanning the per-cell rule out across compute workers; each
/// worker reads only the frozen buffer and writes only its own outputs.
///
/// Relies on rayon's `into_par_iter` over an index range, `map`, and
/// `collect_into_vec`: the collected vector holds the closure's result for
/// each index of the range, in index order. The closure only calls the
/// verified `step_cell_at`.
#[verifier::external_body]
pub(crate) fn par_step_cells(cells: &Vec<u32>, w: u32, h: u32, n: u32, t: u32) -> (r: Vec<u32>)
    requires
        grid_wf(cells@, w as int, h as int),
        1 <= n,
        states_below(cells@, n),
    ensures
        r@ == step_grid(cells@, w as int, h as int, n, t),
{
    let mut out: Vec<u32> = Vec::new();
    (0..cells.len()).into_par_iter().map(|i| crate::rule::step_cell_at(cells, w, h, n, t, i))
        .collect_into_vec(&mut out);
    out
}

/// The device upload buffer: the state count, the threshold and the grid
/// dimensions as a four-word header, followed by the current generation.
pub open spec fn encode_spec(g: Seq<u32>, w: u32, h: u32, n: u32, t: u32) -> Seq<u32> {
    seq![n, t, w, h] + g
}

/// The cell region of an upload buffer: everything after the header.
pub open spec fn upload_cells(u: Seq<u32>) -> Seq<u32> {
    u.skip(4)
}

/// A well-formed upload buffer: a header describing a non-degenerate grid, a
/// cell region of exactly one word per cell, and every cell state below the
/// uploaded state count.
pub open spec fn upload_wf(u: Seq<u32>) -> bool {
    &&& u.len() >= 4
    &&& 1 <= u[0]
    &&& 1 <= u[2]
    &&& 1 <= u[3]
    &&& u.len() - 4 == (u[2] as int) * (u[3] as int)
    &&& states_below(upload_cells(u), u[0])
}

/// What one kernel invocation computes from an upload buffer: the next state
/// of the cell at its global id, or nothing for a masked out-of-range id.
pub open spec fn kernel_spec(u: Seq<u32>, gid: int) -> Option<u32> {
    if 0 <= gid < upload_cells(u).len() {
        Some(step_cell(upload_cells(u), u[2] as int, u[3] as int, u[0], u[1], gid))
    } else {
        None
    }
}

/// The readback a dispatch covering every cell of the upload produces.
pub open spec fn device_step_spec(u: Seq<u32>) -> Seq<u32> {
    Seq::new(upload_cells(u).len(), |i: int| kernel_spec(u, i).unwrap())
}

/// The two backends agree: the device path is a parallel re-expression of
/// the same pure rule: for one generation and one parameter pair, the readback
/// of a full dispatch over the encoded upload is bit-identical to the
/// host-side step.
pub proof fn lemma_backends_agree(g: Seq<u32>, w: u32, h: u32, n: u32, t: u32)
    requires
        grid_wf(g, w as int, h as int),
    ensures
        device_step_spec(encode_spec(g, w, h, n, t)) == step_grid(g, w as int, h as int, n, t),
{
    let u = encode_spec(g, w, h, n, t);
    assert(upload_cells(u) =~= g);
    assert(device_step_spec(u) =~= step_grid(g, w as int, h as int, n, t));
}

/// Serializes the parameters, the dimensions and the current generation into
/// one flat upload buffer for the device.
pub fn encode_upload(cells: &Vec<u32>, w: u32, h: u32, n: u32, t: u32) -> (r: Vec<u32>)
    requires
        grid_wf(cells@, w as int, h as int),
        1 <= n,
        states_below(cells@, n),
    ensures
        r@ == encode_spec(cells@, w, h, n, t),
        upload_wf(r@),
{
    let mut r: Vec<u32> = Vec::new();
    r.push(n);
    r.push(t);
    r.push(w);
    r.push(h);
    let len: usize = cells.len();
    let mut i: usize = 0;
    while i < len
        invariant
            i <= len,
            len == cells@.len(),
            r@ == seq![n, t, w, h] + cells@.take(i as int),
        decreases len - i,
    {
        r.push(cells[i]);
        proof {
            assert(r@ =~= seq![n, t, w, h] + cells@.take(i as int + 1));
        }
        i = i + 1;
    }
    proof {
        assert(cells@.take(len as int) =~= cells@);
        assert(upload_cells(r@) =~= cells@);
    }
    r
}

/// One kernel invocation of the rule-evaluation routine: it reads the
/// parameters and dimensions from the upload header and the frozen generation
/// from the upload tail, and yields the next state of the cell at its global
/// id. An invocation whose global id lies past the cell count (padding of the
/// last workgroup) is masked to a no-op: it reads no cell and yields nothing.
pub fn device_kernel(upload: &Vec<u32>, gid: usize) -> (r: Option<u32>)
    requires
        upload_wf(upload@),
    ensures
        r == kernel_spec(upload@, gid as int),
{
    let n: u32 = upload[0];
    let t: u32 = upload[1];
    let w: u32 = upload[2];
    let h: u32 = upload[3];
    let cell_count: usize = upload.len() - 4;
    if gid >= cell_count {
        return None;
    }
    proof {
        lemma_xy_of_idx(w as int, h as int, gid as int);
    }
    let x: u32 = (gid % (w as usize)) as u32;
    let y: u32 = (gid / (w as usize)) as u32;
    let xl: u32 = wrap_dec_u32(x, w);
    let xr: u32 = wrap_inc_u32(x, w);
    let yu: u32 = wrap_dec_u32(y, h);
    let yd: u32 = wrap_inc_u32(y, h);
    let mut neigh: Vec<u32> = Vec::new();
    neigh.push(upload[4 + cell_index(w, h, xl, yu)]);
    neigh.push(upload[4 + cell_index(w, h, x, yu)]);
    neigh.push(upload[4 + cell_index(w, h, xr, yu)]);
    neigh.push(upload[4 + cell_index(w, h, xl, y)]);
    neigh.push(upload[4 + cell_index(w, h, xr, y)]);
    neigh.push(upload[4 + cell_index(w, h, xl, yd)]);
    neigh.push(upload[4 + cell_index(w, h, x, yd)]);
    neigh.push(upload[4 + cell_index(w, h, xr, yd)]);
    proof {
        assert(neigh@ =~= moore_neighbors(
            upload_cells(upload@),
            w as int,
            h as int,
            x as int,
            y as int,
        ));
    }
    let c: u32 = upload[4 + gid];
    assert(c == upload_cells(upload@)[gid as int]);
    Some(next_state(c, &neigh, n, t))
}

/// How many fixed-size workgroups a dispatch needs to cover `cell_count`
/// invocations: the least count whose invocation total reaches `cell_count`.
pub fn workgroup_count(cell_count: usize, workgroup_size: usize) -> (r: usize)
    requires
        1 <= workgroup_size,
    ensures
        (r as int) * (workgroup_size as int) >= cell_count as int,
        cell_count > 0 ==> (r as int - 1) * (workgroup_size as int) < cell_count as int,
        cell_count == 0 ==> r == 0,
{
    let q: usize = cell_count / workgroup_size;
    let rem: usize = cell_count % workgroup_size;
    proof {
        assert(q as int == cell_count as int / workgroup_size as int);
        assert(rem as int == cell_count as int % workgroup_size as int);
        assert((cell_count as int) == (q as int) * (workgroup_size as int) + rem as int
            && rem as int >= 0 && (rem as int) < (workgroup_size as int)) by (nonlinear_arith)
            requires
                1 <= workgroup_size,
                q as int == cell_count as int / workgroup_size as int,
                rem as int == cell_count as int % workgroup_size as int,
        ;
    }
    if rem == 0 {
        proof {
            assert(cell_count > 0 ==> (q as int - 1) * (workgroup_size as int)
                < cell_count as int) by (nonlinear_arith)
                requires
                    1 <= workgroup_size,
                    cell_count as int == (q as int) * (workgroup_size as int),
            ;
        }
        q
    } else {
        proof {
            assert((q as int + 1) * (workgroup_size as int) >= cell_count as int && (q as int)
                * (workgroup_size as int) < cell_count as int && q < usize::MAX)
                by (nonlinear_arith)
                requires
                    1 <= workgroup_size,
                    cell_count as int == (q as int) * (workgroup_size as int) + rem as int,
                    rem as int > 0,
                    (rem as int) < (workgroup_size as int),
                    cell_count <= usize::MAX,
            ;
        }
        q + 1
    }
}

/// The part of a dispatch already covered: the global ids below `done`, capped
/// at the cell count `cc`.
pub open spec fn covered(done: int, cc: int) -> int {
    if done <= cc {
        done
    } else {
        cc
    }
}

/// A full dispatch: runs `workgroups` workgroups of `workgroup_size` kernel
/// invocations each over the upload, in global-id order, and collects the
/// unmasked results: the readback buffer, one next-generation state per cell.
/// Once every cell is covered, the remaining padding invocations are masked:
/// the kernel is handed the cell count itself as an out-of-range global id and
/// yields nothing.
pub fn run_dispatch(upload: &Vec<u32>, workgroups: usize, workgroup_size: usize) -> (r: Vec<u32>)
    requires
        upload_wf(upload@),
        1 <= workgroup_size,
        (workgroups as int) * (workgroup_size as int) >= upload@.len() - 4,
    ensures
        r@ == device_step_spec(upload@),
{
    let ghost cc: int = upload@.len() - 4;
    let mut out: Vec<u32> = Vec::new();
    let mut wg: usize = 0;
    while wg < workgroups
        invariant
            upload_wf(upload@),
            cc == upload@.len() - 4,
            wg <= workgroups,
            out@.len() == covered((wg as int) * (workgroup_size as int), cc),
            out@ == device_step_spec(upload@).take(out@.len() as int),
        decreases workgroups - wg,
    {
        let mut local: usize = 0;
        while local < workgroup_size
            invariant
                upload_wf(upload@),
                cc == upload@.len() - 4,
                local <= workgroup_size,
                out@.len() == covered(
                    (wg as int) * (workgroup_size as int) + local as int,
                    cc,
                ),
                out@ == device_step_spec(upload@).take(out@.len() as int),
            decreases workgroup_size - local,
        {
            let gid: usize = out.len();
            match device_kernel(upload, gid) {
                Some(v) => {
                    out.push(v);
                    proof {
                        assert(out@ =~= device_step_spec(upload@).take(out@.len() as int));
                    }
                },
                None => {
                },
            }
            local = local + 1;
        }
        proof {
            assert((wg as int + 1) * (workgroup_size as int) == (wg as int) * (
            workgroup_size as int) + workgroup_size as int) by (nonlinear_arith);
        }
        wg = wg + 1;
    }
    proof {
        assert(out@.len() == cc);
        assert(out@ =~= device_step_spec(upload@));
    }
    out
}

} // verus!
