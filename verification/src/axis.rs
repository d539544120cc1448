//! The closed set of coordinate axes, and the spec-level view of a point as a
//! triple of mathematical integers indexed by axis.

use vstd::prelude::*;

verus! {

/// Identifies one coordinate slot of a point. 2-coordinate points carry only
/// X and Y; reading Z from them yields zero, writing Z to them is refused.
#[derive(Debug, Copy, Clone, PartialEq, Eq, Structural)]
pub enum Axis {
    X,
    Y,
    Z,
}

/// The coordinate of the model triple `c` that `a` names.
pub open spec fn axis_of(c: (int, int, int), a: Axis) -> int {
    match a {
        Axis::X => c.0,
        Axis::Y => c.1,
        Axis::Z => c.2,
    }
}

/// The model triple `c` with the coordinate that `a` names replaced by `v`.
pub open spec fn with_axis(c: (int, int, int), a: Axis, v: int) -> (int, int, int) {
    match a {
        Axis::X => (v, c.1, c.2),
        Axis::Y => (c.0, v, c.2),
        Axis::Z => (c.0, c.1, v),
    }
}

} // verus!
