//! The algebra of the transformations, stated over the same spec functions
//! that the executable contracts use, so each law carries from the model to
//! every point type and scalar type.

use vstd::prelude::*;
use crate::axis::{Axis, axis_of};
use crate::value::TValue;
use crate::transform::{TCoordinate, spec_shift_axis, spec_flip_axis, spec_reflect};
use crate::point2d::SPoint2D;

verus! {

/// Law: swapping an axis with itself leaves every coordinate unchanged.
pub proof fn lemma_flip_axis_self_identity(c: (int, int, int), a: Axis)
    ensures
        spec_flip_axis(c, a, a) == c,
{
}

/// Law: swapping two axes twice restores every coordinate.
pub proof fn lemma_flip_axis_involution(c: (int, int, int), a1: Axis, a2: Axis)
    ensures
        spec_flip_axis(spec_flip_axis(c, a1, a2), a1, a2) == c,
{
}

/// Law: reflecting through the origin twice restores every coordinate.
pub proof fn lemma_reflect_involution(c: (int, int, int))
    ensures
        spec_reflect(spec_reflect(c)) == c,
{
}

/// Law: shifting one axis by `d` and then by `-d` restores every coordinate.
pub proof fn lemma_shift_axis_cancel(c: (int, int, int), a: Axis, d: int)
    ensures
        spec_shift_axis(spec_shift_axis(c, a, d), a, -d) == c,
{
}

/// Law: a 2-coordinate point reads zero at the Z axis, whatever it holds.
pub proof fn lemma_point2d_z_reads_zero<T: TValue>(p: &SPoint2D<T>)
    ensures
        axis_of(p.model(), Axis::Z) == 0,
{
    p.lemma_missing_axis_reads_zero(Axis::Z);
}

} // verus!
