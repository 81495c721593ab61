use hsa_runtime::dispatch::{check_launch, Dim3, DispatchLimits};
use hsa_runtime::error::Error;

fn d(x: u32, y: u32, z: u32) -> Dim3 {
    Dim3 { x, y, z }
}

fn limits() -> DispatchLimits {
    DispatchLimits {
        workgroup_max_dim: d(1024, 1024, 1024),
        workgroup_max_len: 1024,
        grid_max_dim: d(u32::MAX, u32::MAX, u32::MAX),
        grid_max_len: u32::MAX as u64,
    }
}

#[test]
fn zero_grid_axis_is_rejected_first() {
    assert!(matches!(check_launch(d(0, 1, 1), d(64, 1, 1), &limits()), Err(Error::ZeroGridLaunchAxis)));
    assert!(matches!(check_launch(d(8, 1, 0), d(4096, 1, 1), &limits()), Err(Error::ZeroGridLaunchAxis)));
}

#[test]
fn workgroup_dimension_over_limit() {
    assert!(matches!(
        check_launch(d(4096, 1, 1), d(2048, 1, 1), &limits()),
        Err(Error::KernelWorkgroupDimTooLargeForDevice)
    ));
}

#[test]
fn workgroup_length_over_limit() {
    assert!(matches!(
        check_launch(d(4096, 1, 1), d(64, 64, 1), &limits()),
        Err(Error::KernelWorkgroupLenTooLargeForDevice)
    ));
}

#[test]
fn grid_dimension_and_length_over_limit() {
    let mut l = limits();
    l.grid_max_dim = d(100, 100, 100);
    assert!(matches!(check_launch(d(101, 1, 1), d(1, 1, 1), &l), Err(Error::LaunchGridDimTooLargeForDevice)));
    l.grid_max_len = 1000;
    assert!(matches!(check_launch(d(100, 100, 1), d(1, 1, 1), &l), Err(Error::LaunchGridLenTooLargeForDevice)));
}

#[test]
fn valid_launch_is_accepted() {
    assert!(check_launch(d(65536, 1, 1), d(256, 1, 1), &limits()).is_ok());
    assert!(check_launch(d(u32::MAX, u32::MAX, 1), d(1024, 1, 1), &DispatchLimits {
        grid_max_len: u64::MAX,
        ..limits()
    })
    .is_ok());
}
