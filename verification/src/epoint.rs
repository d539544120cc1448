//! The tagged choice over the concrete point arities, for call sites that
//! must hold "some point of some arity" without committing to one type. It
//! carries no behaviour of its own beyond unwrapping to the concrete variant.

use vstd::prelude::*;
use crate::value::TValue;
use crate::point3d::SPoint3D;
use crate::point2d::SPoint2D;

verus! {

/// Exactly one concrete point variant, 3-coordinate or 2-coordinate.
#[derive(Debug, Copy, Clone)]
pub enum EPoint<T: TValue> {
    SPoint3D(SPoint3D<T>),
    SPoint2D(SPoint2D<T>),
}

} // verus!
