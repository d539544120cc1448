//! The 2-coordinate point: scalars for X and Y only. Reading Z yields zero,
//! so dimension-generic callers can take all three axes from it; writing Z
//! is a programming error, excluded by precondition on the capability
//! methods and reported as `UnsupportedAxis` by the checked variants.

use vstd::prelude::*;
use crate::axis::{Axis, axis_of, with_axis};
use crate::value::TValue;
use crate::transform::{
    TCoordinate, TTransformable, spec_shift_axis, spec_flip_axis, spec_reflect_axis, spec_scale,
    spec_mul_pointwise, scale_fits, mul_pointwise_fits,
};

verus! {

/// The error reported when a write-class operation names an axis the
/// 2-coordinate point does not carry (Z).
#[derive(Debug, PartialEq, Eq, Structural, Copy, Clone)]
pub struct UnsupportedAxis;

/// A point with two coordinates (x, y). Equality is exact fieldwise
/// equality; the derived order is lexicographic in field order x, y.
#[derive(Debug, PartialEq, Eq, PartialOrd, Copy, Clone)]
pub struct SPoint2D<T: TValue> {
    x: T,
    y: T,
}

impl<T: TValue> SPoint2D<T> {
    /// A point holding the two given coordinates.
    pub fn new(x: T, y: T) -> (r: Self)
        ensures
            r.model() == (x.view_int(), y.view_int(), 0int),
    {
        SPoint2D { x, y }
    }

    /// Exchange the two coordinates: shorthand for swapping X with Y, the
    /// natural transposition of a 2-coordinate point.
    pub fn flip(&mut self)
        ensures
            final(self).model() == spec_flip_axis(old(self).model(), Axis::X, Axis::Y),
    {
        self.flip_axis(Axis::X, Axis::Y);
    }

    /// Multiply every coordinate by the scalar `rhs`.
    pub fn mul_assign(&mut self, rhs: T)
        requires
            scale_fits::<T>(old(self).model(), rhs.view_int()),
        ensures
            final(self).model() == spec_scale(old(self).model(), rhs.view_int()),
    {
        self.x = self.x.mul_val(rhs);
        self.y = self.y.mul_val(rhs);
    }

    /// Multiply componentwise by another 2-coordinate point.
    pub fn mul_assign_point(&mut self, rhs: SPoint2D<T>)
        requires
            mul_pointwise_fits::<T>(old(self).model(), rhs.model()),
        ensures
            final(self).model() == spec_mul_pointwise(old(self).model(), rhs.model()),
    {
        self.x = self.x.mul_val(rhs.x);
        self.y = self.y.mul_val(rhs.y);
    }

    /// Checked write: overwrites the slot `axis` names, or reports
    /// `UnsupportedAxis` (leaving the point unchanged) when `axis` is Z.
    pub fn try_set_axis_value(&mut self, axis: Axis, value: T) -> (r: Result<(), UnsupportedAxis>)
        ensures
            r is Ok <==> axis != Axis::Z,
            axis == Axis::Z ==> final(self).model() == old(self).model(),
            axis != Axis::Z ==> final(self).model() == with_axis(
                old(self).model(),
                axis,
                value.view_int(),
            ),
    {
        match axis {
            Axis::Z => Err(UnsupportedAxis),
            _ => {
                self.set_axis_value(axis, value);
                Ok(())
            },
        }
    }

    /// Checked translation of one axis: adds `value` to the slot `axis`
    /// names, or reports `UnsupportedAxis` (leaving the point unchanged)
    /// when `axis` is Z.
    pub fn try_shift_axis(&mut self, axis: Axis, value: T) -> (r: Result<(), UnsupportedAxis>)
        requires
            axis != Axis::Z ==> T::in_range(
                axis_of(old(self).model(), axis) + value.view_int(),
            ),
        ensures
            r is Ok <==> axis != Axis::Z,
            axis == Axis::Z ==> final(self).model() == old(self).model(),
            axis != Axis::Z ==> final(self).model() == spec_shift_axis(
                old(self).model(),
                axis,
                value.view_int(),
            ),
    {
        match axis {
            Axis::Z => Err(UnsupportedAxis),
            _ => {
                self.shift_axis(axis, value);
                Ok(())
            },
        }
    }

    /// Checked reflection of one axis: negates the slot `axis` names, or
    /// reports `UnsupportedAxis` (leaving the point unchanged) when `axis`
    /// is Z.
    pub fn try_reflect_axis(&mut self, axis: Axis) -> (r: Result<(), UnsupportedAxis>)
        requires
            axis != Axis::Z ==> T::in_range(-axis_of(old(self).model(), axis)),
        ensures
            r is Ok <==> axis != Axis::Z,
            axis == Axis::Z ==> final(self).model() == old(self).model(),
            axis != Axis::Z ==> final(self).model() == spec_reflect_axis(
                old(self).model(),
                axis,
            ),
    {
        match axis {
            Axis::Z => Err(UnsupportedAxis),
            _ => {
                self.reflect_axis(axis);
                Ok(())
            },
        }
    }
}

impl<T: TValue> Default for SPoint2D<T> {
    /// The origin.
    fn default() -> (r: Self)
        ensures
            r.model() == (0int, 0int, 0int),
    {
        SPoint2D { x: T::zero(), y: T::zero() }
    }
}

impl<T: TValue> TCoordinate<T> for SPoint2D<T> {
    closed spec fn model(&self) -> (int, int, int) {
        (self.x.view_int(), self.y.view_int(), 0int)
    }

    open spec fn axis_writable(a: Axis) -> bool {
        a != Axis::Z
    }

    proof fn lemma_xy_writable() {
    }

    proof fn lemma_missing_axis_reads_zero(&self, a: Axis) {
    }

    proof fn lemma_model_in_range(&self) {
        self.x.lemma_value_in_range();
        self.y.lemma_value_in_range();
        T::lemma_identities_in_range();
    }

    fn get_axis_value(&self, axis: Axis) -> (r: T) {
        match axis {
            Axis::X => self.x,
            Axis::Y => self.y,
            Axis::Z => T::zero(),
        }
    }

    fn set_axis_value(&mut self, axis: Axis, value: T) {
        match axis {
            Axis::X => self.x = value,
            Axis::Y => self.y = value,
            Axis::Z => {
                proof {
                    assert(false);
                }
            },
        }
    }
}

impl<T: TValue> TTransformable<T> for SPoint2D<T> {
    fn shift<U: TCoordinate<T>>(&mut self, coord: &U) {
        self.x = self.x.add_val(coord.get_axis_value(Axis::X));
        self.y = self.y.add_val(coord.get_axis_value(Axis::Y));
    }

    fn shift_axis(&mut self, axis: Axis, value: T) {
        match axis {
            Axis::X => self.x = self.x.add_val(value),
            Axis::Y => self.y = self.y.add_val(value),
            Axis::Z => {
                proof {
                    assert(false);
                }
            },
        }
    }

    fn flip_axis(&mut self, axis1: Axis, axis2: Axis) {
        let orig_axis2_value: T = self.get_axis_value(axis2);
        let orig_axis1_value: T = self.get_axis_value(axis1);
        self.set_axis_value(axis2, orig_axis1_value);
        self.set_axis_value(axis1, orig_axis2_value);
    }

    fn reflect(&mut self) {
        self.x = self.x.neg_val();
        self.y = self.y.neg_val();
    }

    fn reflect_axis(&mut self, axis: Axis) {
        match axis {
            Axis::X => self.x = self.x.neg_val(),
            Axis::Y => self.y = self.y.neg_val(),
            Axis::Z => {
                proof {
                    assert(false);
                }
            },
        }
    }
}

} // verus!
