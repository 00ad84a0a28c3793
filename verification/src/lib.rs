//! The numeric core of a small driving simulation: the control law of a
//! steerable car, its motion as a rod on two contact points, the snapping
//! of a reference grid to the camera, the line geometry of that grid, and
//! the colour palette.
//!
//! Every quantity is an integer, so every result is exact: lengths in world
//! units, time in microseconds, steering angles in whole degrees,
//! directions as scaled cosines and sines, colours in 8-bit channels.

pub mod grid;
pub mod kinematics;
pub mod palette;
pub mod vehicle;
