//! Frame planning for a small GPU animation: four points orbit the centre of a
//! window, and a compute pass paints them into an offscreen target that is then
//! copied to the surface.
//!
//! The library decides; a thin shell performs. Every entry point takes plain
//! values (sizes, timestamps, point positions, what the surface answered) and
//! returns the commands that the shell has to carry out on the device, the
//! queue and the window, in order. What is created, with which descriptor, for
//! which frame slot, and when, is stated in the contracts and proved.

pub mod application;
pub mod command;
pub mod context;
pub mod descriptor;
pub mod frame;
pub mod layout;
pub mod pool;
pub mod readout;
pub mod surface;
pub mod timing;
