use vstd::prelude::*;

use crate::error::Error;

verus! {

/// Lengths along the three axes of a launch.
#[derive(Clone, Copy, Debug, PartialEq, Eq, Structural)]
pub struct Dim3 {
    pub x: u32,
    pub y: u32,
    pub z: u32,
}

/// What a device accepts for a launch: the largest workgroup along each axis
/// and in total, and the largest grid along each axis and in total.
#[derive(Clone, Copy, Debug, PartialEq, Eq, Structural)]
pub struct DispatchLimits {
    pub workgroup_max_dim: Dim3,
    pub workgroup_max_len: u64,
    pub grid_max_dim: Dim3,
    pub grid_max_len: u64,
}

pub open spec fn has_zero_axis(d: Dim3) -> bool {
    d.x == 0 || d.y == 0 || d.z == 0
}

pub open spec fn exceeds_dim(d: Dim3, max: Dim3) -> bool {
    d.x > max.x || d.y > max.y || d.z > max.z
}

pub open spec fn dim_len(d: Dim3) -> int {
    d.x * d.y * d.z
}

/// The verdict on a launch geometry: a grid with a zero-length axis first,
/// then a workgroup too large along an axis or in total, then a grid too
/// large along an axis or in total.
pub open spec fn launch_check(grid: Dim3, workgroup: Dim3, limits: DispatchLimits) -> Result<
    (),
    Error,
> {
    if has_zero_axis(grid) {
        Err(Error::ZeroGridLaunchAxis)
    } else if exceeds_dim(workgroup, limits.workgroup_max_dim) {
        Err(Error::KernelWorkgroupDimTooLargeForDevice)
    } else if dim_len(workgroup) > limits.workgroup_max_len {
        Err(Error::KernelWorkgroupLenTooLargeForDevice)
    } else if exceeds_dim(grid, limits.grid_max_dim) {
        Err(Error::LaunchGridDimTooLargeForDevice)
    } else if dim_len(grid) > limits.grid_max_len {
        Err(Error::LaunchGridLenTooLargeForDevice)
    } else {
        Ok(())
    }
}

fn len_of(d: Dim3) -> (r: u128)
    ensures
        r == dim_len(d),
{
    let x = d.x as u128;
    let y = d.y as u128;
    assert(x * y <= 0xffff_ffff_ffff_ffffu128) by (nonlinear_arith)
        requires
            x <= 0xffff_ffffu128,
            y <= 0xffff_ffffu128,
    ;
    let xy = x * y;
    assert(xy * (d.z as u128) <= 0xffff_ffff_ffff_ffff_ffff_ffffu128) by (nonlinear_arith)
        requires
            xy <= 0xffff_ffff_ffff_ffffu128,
            d.z <= 0xffff_ffffu32,
    ;
    xy * (d.z as u128)
}

impl Dim3 {
    fn any_zero(self) -> (r: bool)
        ensures
            r == has_zero_axis(self),
    {
        self.x == 0 || self.y == 0 || self.z == 0
    }

    fn any_above(self, max: Dim3) -> (r: bool)
        ensures
            r == exceeds_dim(self, max),
    {
        self.x > max.x || self.y > max.y || self.z > max.z
    }
}

/// Checks a launch of `grid` work items in workgroups of `workgroup` against
/// the device's limits, before anything is dispatched.
pub fn check_launch(grid: Dim3, workgroup: Dim3, limits: &DispatchLimits) -> (r: Result<(), Error>)
    ensures
        r == launch_check(grid, workgroup, *limits),
{
    if grid.any_zero() {
        Err(Error::ZeroGridLaunchAxis)
    } else if workgroup.any_above(limits.workgroup_max_dim) {
        Err(Error::KernelWorkgroupDimTooLargeForDevice)
    } else if len_of(workgroup) > limits.workgroup_max_len as u128 {
        Err(Error::KernelWorkgroupLenTooLargeForDevice)
    } else if grid.any_above(limits.grid_max_dim) {
        Err(Error::LaunchGridDimTooLargeForDevice)
    } else if len_of(grid) > limits.grid_max_len as u128 {
        Err(Error::LaunchGridLenTooLargeForDevice)
    } else {
        Ok(())
    }
}

} // verus!
