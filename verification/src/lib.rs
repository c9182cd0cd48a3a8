//! Continuous (swept) collision detection for 2D axis-aligned boxes against
//! static axis-aligned boxes and right-triangle slopes.
//!
//! Geometry is exact: coordinates are bounded integers and travel along the
//! displacement is reported as an exact rational fraction of the displacement
//! vector, so every result is a pure function of its inputs with no rounding.

pub mod aabb;
pub mod col;
pub mod geom;
pub mod shapecast;
pub mod slope;
