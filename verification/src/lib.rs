//! Geometry, layout and interaction logic of a region selector for Wayland
//! screen recorders.
//!
//! All coordinates are integers measured in sub-pixel units (see
//! [`geometry::UNITS_PER_PIXEL`]). Positions the compositor reports are even
//! numbers of units, and the functions that halve an extent require it to be
//! even, so the geometry computes exact midpoints rather than rounding.

pub mod app;
pub mod geometry;
pub mod render;
pub mod style;
pub mod surface;
