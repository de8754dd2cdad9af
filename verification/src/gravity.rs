//! Components shared by the 2D and 3D variants of every field.

use vstd::prelude::*;

pub mod axis;
pub mod build_trs;
pub mod field;
pub mod query;
pub mod util;

verus! {

/// Priority of a field: where fields overlap, the highest level wins.
pub type Level = i32;

/// Collision layers a query looks at, one bit per layer.
pub type Mask = u32;

/// Trait to implement a gravity field over vectors of type `V`.
///
/// It is implemented by whatever places a field in a scene: the up
/// direction in world space is the local one turned by the orientation that
/// the scene gives the field.
pub trait Field<V> {
    /// Priority level of the field.
    fn level(&self) -> Level;

    /// Up direction at `position`, in the field's own space.
    fn local_up(&self, position: &V) -> V;

    /// Up direction at `position`, in world space.
    fn global_up(&self, position: &V) -> V;
}

} // verus!
