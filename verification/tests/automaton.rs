use cyclica::engine::{device_kernel, workgroup_count, Backend, DeviceHandle};
use cyclica::grid::Grid;
use cyclica::system::{DynamicalSystem, FillPolicy, Params};
use cyclica::AutomatonError;

fn host_system(
    width: u32,
    height: u32,
    cells: Vec<u32>,
    states: u32,
    thresh: u32,
) -> DynamicalSystem {
    DynamicalSystem::from_cells(width, height, cells, states, thresh, Backend::Host, None).unwrap()
}

fn read_all(sys: &DynamicalSystem) -> Vec<u32> {
    let mut out = Vec::new();
    for y in 0..sys.height() {
        for x in 0..sys.width() {
            out.push(sys.get(x, y));
        }
    }
    out
}

#[test]
fn single_trigger_scenario() {
    // 3x3 toroidal grid, 3 states, threshold 1: the zero at the center sees
    // eight neighbors at its successor state 1, so one step advances it.
    let cells = vec![1, 1, 1, 1, 0, 1, 1, 1, 1];
    let mut sys = host_system(3, 3, cells, 3, 1);
    sys.step().unwrap();
    assert_eq!(sys.get(1, 1), 1);
    assert_eq!(read_all(&sys), vec![1, 1, 1, 1, 1, 1, 1, 1, 1]);
    // No cell holds state 2, so a second step leaves the center at 1.
    sys.step().unwrap();
    assert_eq!(sys.get(1, 1), 1);
}

#[test]
fn wrap_correctness() {
    // Fill a 4x4 grid with its own indices so each coordinate is identifiable:
    // the neighborhood of (0, 0) must be exactly the toroidal Moore set, in
    // row-major scan order of the wrapped 3x3 block.
    let cells: Vec<u32> = (0..16).collect();
    let grid = Grid::create(4, 4, cells).unwrap();
    let neigh = grid.neighbors(0, 0);
    // Coordinates (3,3) (0,3) (1,3) / (3,0) (1,0) / (3,1) (0,1) (1,1).
    assert_eq!(neigh, vec![15, 12, 13, 3, 1, 7, 4, 5]);
}

#[test]
fn get_wraps_coordinates() {
    let cells: Vec<u32> = (0..16).collect();
    let grid = Grid::create(4, 4, cells).unwrap();
    assert_eq!(grid.get(4, 4), grid.get(0, 0));
    assert_eq!(grid.get(7, 2), grid.get(3, 2));
    assert_eq!(grid.get(9, 11), grid.get(1, 3));
}

#[test]
fn reconfiguration_clamp() {
    // Cells at state 4 under 5 states; shrinking to 3 states clamps them to
    // 4 mod 3 = 1 immediately, before any step.
    let mut sys = host_system(2, 2, vec![4, 4, 4, 4], 5, 3);
    sys.set_parameters(3, 3).unwrap();
    assert_eq!(sys.params(), Params { state_count: 3, threshold: 3 });
    assert_eq!(read_all(&sys), vec![1, 1, 1, 1]);
    // Growing the state count leaves every cell untouched.
    sys.set_parameters(5, 1).unwrap();
    assert_eq!(read_all(&sys), vec![1, 1, 1, 1]);
}

#[test]
fn static_single_state() {
    let mut sys = host_system(4, 4, vec![0; 16], 1, 2);
    for _ in 0..5 {
        sys.step().unwrap();
        assert_eq!(read_all(&sys), vec![0; 16]);
    }
}

#[test]
fn threshold_unreachable() {
    // A threshold of 9 exceeds the neighborhood size of 8: nothing ever fires.
    let cells = vec![0, 1, 2, 0, 1, 2, 0, 1, 2];
    let mut sys = host_system(3, 3, cells.clone(), 3, 9);
    for _ in 0..3 {
        sys.step().unwrap();
        assert_eq!(read_all(&sys), cells);
    }
}

#[test]
fn determinism_host() {
    let seed = DynamicalSystem::create(8, 8, 4, 2, FillPolicy::UniformRandom, Backend::Host, None)
        .unwrap();
    let cells = read_all(&seed);
    let mut a = host_system(8, 8, cells.clone(), 4, 2);
    let mut b = host_system(8, 8, cells, 4, 2);
    for _ in 0..4 {
        a.step().unwrap();
        b.step().unwrap();
        assert_eq!(read_all(&a), read_all(&b));
    }
}

#[test]
fn backends_agree() {
    let seed = DynamicalSystem::create(6, 5, 5, 2, FillPolicy::UniformRandom, Backend::Host, None)
        .unwrap();
    let cells = read_all(&seed);
    let mut host = host_system(6, 5, cells.clone(), 5, 2);
    // A workgroup size of 7 does not divide 30 cells: the dispatch is padded
    // and the padding invocations must be masked.
    let dev = DeviceHandle::acquire(7);
    let mut device =
        DynamicalSystem::from_cells(6, 5, cells, 5, 2, Backend::Device, dev).unwrap();
    for _ in 0..3 {
        host.step().unwrap();
        device.step().unwrap();
        assert_eq!(read_all(&host), read_all(&device));
    }
}

#[test]
fn device_two_phase_round_trip() {
    let cells = vec![1, 1, 1, 1, 0, 1, 1, 1, 1];
    let mut twin = host_system(3, 3, cells.clone(), 3, 1);
    twin.step().unwrap();

    let mut sys = host_system(3, 3, cells, 3, 1);
    let upload = sys.begin_device_step().unwrap();
    assert!(sys.is_in_flight());
    // Header: state count, threshold, width, height, then the generation.
    assert_eq!(&upload[..4], &[3, 1, 3, 3]);
    let wg_size = 4;
    let groups = workgroup_count(9, wg_size);
    assert_eq!(groups, 3);
    let mut readback = Vec::new();
    for gid in 0..groups * wg_size {
        if let Some(v) = device_kernel(&upload, gid) {
            readback.push(v);
        }
    }
    assert_eq!(readback.len(), 9);
    sys.finish_device_step(readback).unwrap();
    assert!(!sys.is_in_flight());
    assert_eq!(read_all(&sys), read_all(&twin));
}

#[test]
fn kernel_masks_out_of_range_ids() {
    let mut sys = host_system(3, 3, vec![0; 9], 2, 1);
    let upload = sys.begin_device_step().unwrap();
    assert_eq!(device_kernel(&upload, 9), None);
    assert_eq!(device_kernel(&upload, 100), None);
    assert!(device_kernel(&upload, 8).is_some());
}

#[test]
fn workgroup_counts() {
    assert_eq!(workgroup_count(9, 4), 3);
    assert_eq!(workgroup_count(8, 4), 2);
    assert_eq!(workgroup_count(0, 4), 0);
    assert_eq!(workgroup_count(1, 64), 1);
}

#[test]
fn step_in_progress_is_rejected() {
    let mut sys = host_system(2, 2, vec![0, 1, 0, 1], 2, 1);
    let upload = sys.begin_device_step().unwrap();
    assert_eq!(sys.step(), Err(AutomatonError::StepInProgress));
    assert!(sys.begin_device_step() == Err(AutomatonError::StepInProgress));
    assert!(sys.advance_and_colorize() == Err(AutomatonError::StepInProgress));
    let mut readback = Vec::new();
    for gid in 0..4 {
        if let Some(v) = device_kernel(&upload, gid) {
            readback.push(v);
        }
    }
    sys.finish_device_step(readback).unwrap();
    sys.step().unwrap();
}

#[test]
fn failed_finish_leaves_generation_intact() {
    let cells = vec![0, 1, 0, 1];
    let mut sys = host_system(2, 2, cells.clone(), 2, 1);
    sys.begin_device_step().unwrap();
    // Wrong readback length.
    assert_eq!(sys.finish_device_step(vec![0, 1]), Err(AutomatonError::Dimension));
    assert!(!sys.is_in_flight());
    assert_eq!(read_all(&sys), cells);
    // A readback holding a state outside [0, 2) is rejected at the write
    // boundary.
    sys.begin_device_step().unwrap();
    assert_eq!(
        sys.finish_device_step(vec![0, 1, 2, 1]),
        Err(AutomatonError::InvalidStateCount)
    );
    assert!(!sys.is_in_flight());
    assert_eq!(read_all(&sys), cells);
}

#[test]
fn construction_errors() {
    assert_eq!(
        DynamicalSystem::create(0, 4, 3, 1, FillPolicy::Zero, Backend::Host, None).unwrap_err(),
        AutomatonError::Dimension
    );
    assert_eq!(
        DynamicalSystem::create(4, 0, 3, 1, FillPolicy::Zero, Backend::Host, None).unwrap_err(),
        AutomatonError::Dimension
    );
    assert_eq!(
        DynamicalSystem::create(4, 4, 0, 1, FillPolicy::Zero, Backend::Host, None).unwrap_err(),
        AutomatonError::InvalidStateCount
    );
    assert_eq!(
        DynamicalSystem::create(4, 4, 3, 1, FillPolicy::Zero, Backend::Device, None).unwrap_err(),
        AutomatonError::DeviceUnavailable
    );
    assert_eq!(
        DynamicalSystem::from_cells(2, 2, vec![0, 0, 0], 2, 1, Backend::Host, None).unwrap_err(),
        AutomatonError::Dimension
    );
    assert_eq!(
        DynamicalSystem::from_cells(2, 2, vec![0, 0, 0, 5], 2, 1, Backend::Host, None)
            .unwrap_err(),
        AutomatonError::InvalidStateCount
    );
    assert_eq!(
        Grid::create(3, 3, vec![0; 8]).unwrap_err(),
        AutomatonError::Dimension
    );
    assert!(DeviceHandle::acquire(0).is_none());
    assert!(DeviceHandle::acquire(64).is_some());
}

#[test]
fn set_backend_switches() {
    let mut sys = host_system(2, 2, vec![0; 4], 2, 1);
    assert_eq!(
        sys.set_backend(Backend::Device, None),
        Err(AutomatonError::DeviceUnavailable)
    );
    assert_eq!(sys.backend(), Backend::Host);
    sys.set_backend(Backend::Device, DeviceHandle::acquire(8)).unwrap();
    assert_eq!(sys.backend(), Backend::Device);
    sys.step().unwrap();
    // The capability is retained: switching to the host and back needs none.
    sys.set_backend(Backend::Host, None).unwrap();
    sys.set_backend(Backend::Device, None).unwrap();
    sys.step().unwrap();
}

#[test]
fn zero_fill_starts_blank() {
    let sys = DynamicalSystem::create(5, 3, 6, 2, FillPolicy::Zero, Backend::Host, None).unwrap();
    assert_eq!(read_all(&sys), vec![0; 15]);
}

#[test]
fn random_fill_stays_in_range() {
    let sys =
        DynamicalSystem::create(16, 16, 5, 3, FillPolicy::UniformRandom, Backend::Host, None)
            .unwrap();
    for v in read_all(&sys) {
        assert!(v < 5);
    }
}

#[test]
fn invariant_holds_across_generations() {
    let mut sys =
        DynamicalSystem::create(8, 8, 6, 1, FillPolicy::UniformRandom, Backend::Host, None)
            .unwrap();
    for _ in 0..10 {
        sys.step().unwrap();
        for v in read_all(&sys) {
            assert!(v < 6);
        }
    }
}
