//! Cuboid shapes: a box with rounded edges, filled or hollow.
//!
//! The box reaches from minus its size to plus its size along each axis.
//! A position enters here as its excess: along each axis, the side on which
//! it lies beyond the box, or zero where it lies within the size.

/// Rounded rectangles of the plane
pub mod inner2d;

/// Rounded boxes of space
pub mod inner3d;

// re-export
pub use inner2d::GravityShapedCuboid2D;
pub use inner3d::GravityShapedCuboid3D;
