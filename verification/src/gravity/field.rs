//! The kinds of gravity field.

/// Define flat gravity fields
pub mod flat;

/// Define gravity fields with center
pub mod center;

/// Define gravity fields backed by shapes
pub mod shaped;

/// Define an axial gravity field
pub mod axial3d;

/// Define a conic gravity field
pub mod conic3d;

/// Define a bridge area to join distinct gravity fields
pub mod bridge3d;
