//! Scheduling, control and encoding logic of a 2D incompressible
//! Navier-Stokes fluid solver ("stable fluids") whose compute passes run on
//! Vulkan storage images.
//!
//! - `grid`: grid extents and compute workgroup counts,
//! - `fluid`: the ping-pong image bookkeeping and the dispatch sequence of one
//!   solver time step,
//! - `controls`: keyboard controls and the solver settings they adjust,
//! - `device`: choice of the physical device and queue family,
//! - `frame`: per-frame decisions (reset, stepping, swapchain outcomes),
//! - `ppm`: binary PPM encoding of frame and dye dumps.

pub mod controls;
pub mod device;
pub mod fluid;
pub mod frame;
pub mod grid;
pub mod ppm;
