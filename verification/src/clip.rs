//! The axis selector for homogeneous clip-space clipping.
//!
//! Clipping runs one Sutherland–Hodgman pass per axis, and each pass reads
//! one component of a homogeneous `(x, y, z, w)` position. The geometric
//! passes themselves work on floating-point vertices and live with the
//! caller; this module pins down which component each axis selects.

use vstd::prelude::*;

verus! {

/// The clip-space axis that one clipping pass tests against `w`.
pub enum ClipComponent {
    X,
    Y,
    Z,
}

impl ClipComponent {
    /// The position of this axis' component within an `(x, y, z, w)` tuple.
    pub open spec fn index_spec(self) -> int {
        match self {
            ClipComponent::X => 0,
            ClipComponent::Y => 1,
            ClipComponent::Z => 2,
        }
    }

    /// The component index this axis selects: x is 0, y is 1, z is 2.
    pub fn to_index(&self) -> (i: usize)
        ensures
            i as int == self.index_spec(),
    {
        match self {
            ClipComponent::X => 0,
            ClipComponent::Y => 1,
            ClipComponent::Z => 2,
        }
    }
}

} // verus!
