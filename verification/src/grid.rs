use vstd::prelude::*;

verus! {

/// Height of the velocity/pressure simulation grid, in cells. The width
/// follows the window aspect ratio so that cells stay square.
pub const SIM_BASE: u32 = 256;

/// The dye field lives on a grid this many times finer than the velocity
/// grid in each dimension.
pub const DYE_SCALE: u32 = 2;

/// Side of the square compute workgroup, in cells.
pub const WORKGROUP: u32 = 8;

/// Width and height of a grid, in cells.
#[derive(Clone, Copy, Debug, PartialEq, Eq, Structural)]
pub struct Extent {
    pub width: u32,
    pub height: u32,
}

/// Number of values in a readback of a field over `extent` with `channels`
/// values per cell, when that count fits in a `u32`.
pub fn field_len(extent: Extent, channels: u32) -> (r: Option<usize>)
    ensures
        r matches Some(n) ==> n == extent.width * extent.height * channels,
        r is None <==> extent.width * extent.height > u32::MAX || extent.width * extent.height
            * channels > u32::MAX,
{
    let cells = extent.width.checked_mul(extent.height);
    match cells {
        Some(c) => match c.checked_mul(channels) {
            Some(n) => Some(n as usize),
            None => None,
        },
        None => None,
    }
}

/// Number of workgroups of side `WORKGROUP` needed to cover `extent` cells
/// along one axis: `ceil(extent / WORKGROUP)`.
pub open spec fn groups_for(extent: u32) -> nat {
    ((extent + WORKGROUP - 1) / (WORKGROUP as int)) as nat
}

/// Workgroups along one axis of a compute dispatch over `extent` cells: the
/// least count whose workgroups together cover every cell.
pub fn workgroup_count(extent: u32) -> (groups: u32)
    ensures
        groups == groups_for(extent),
        groups * WORKGROUP >= extent,
        groups == 0 || (groups - 1) * WORKGROUP < extent,
{
    let whole = extent / WORKGROUP;
    if extent % WORKGROUP == 0 {
        whole
    } else {
        whole + 1
    }
}

} // verus!
