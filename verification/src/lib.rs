//! Timeline engine for revealing an outline of arcs and lines one segment at a time.
//!
//! All numbers are integers. Lengths and angles are counted in whatever unit the host
//! renders with; progress within a step is a [`ratio::Ratio`], counted in parts of
//! [`ratio::RATIO_ONE`].

pub mod ratio;
pub mod geometry;
pub mod segment;
pub mod path;
pub mod timeline;
