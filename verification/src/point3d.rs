//! The 3-coordinate point: one scalar per axis, all three slots writable.

use vstd::prelude::*;
use crate::axis::Axis;
use crate::value::TValue;
use crate::transform::{
    TCoordinate, TTransformable, spec_shift, spec_shift_axis, spec_flip_axis, spec_reflect,
    spec_reflect_axis, spec_scale, spec_mul_pointwise, shift_fits, reflect_fits, scale_fits,
    mul_pointwise_fits,
};

verus! {

/// A point with three coordinates (x, y, z). Equality is exact fieldwise
/// equality; the derived order is lexicographic in field order x, y, z.
#[derive(Debug, PartialEq, Eq, PartialOrd, Copy, Clone)]
pub struct SPoint3D<T: TValue> {
    x: T,
    y: T,
    z: T,
}

impl<T: TValue> SPoint3D<T> {
    /// A point holding the three given coordinates.
    pub fn new(x: T, y: T, z: T) -> (r: Self)
        ensures
            r.model() == (x.view_int(), y.view_int(), z.view_int()),
    {
        SPoint3D { x, y, z }
    }

    /// Multiply every coordinate by the scalar `rhs`.
    pub fn mul_assign(&mut self, rhs: T)
        requires
            scale_fits::<T>(old(self).model(), rhs.view_int()),
        ensures
            final(self).model() == spec_scale(old(self).model(), rhs.view_int()),
    {
        self.x = self.x.mul_val(rhs);
        self.y = self.y.mul_val(rhs);
        self.z = self.z.mul_val(rhs);
    }

    /// Multiply componentwise by another 3-coordinate point.
    pub fn mul_assign_point(&mut self, rhs: SPoint3D<T>)
        requires
            mul_pointwise_fits::<T>(old(self).model(), rhs.model()),
        ensures
            final(self).model() == spec_mul_pointwise(old(self).model(), rhs.model()),
    {
        self.x = self.x.mul_val(rhs.x);
        self.y = self.y.mul_val(rhs.y);
        self.z = self.z.mul_val(rhs.z);
    }
}

impl<T: TValue> Default for SPoint3D<T> {
    /// The origin.
    fn default() -> (r: Self)
        ensures
            r.model() == (0int, 0int, 0int),
    {
        SPoint3D { x: T::zero(), y: T::zero(), z: T::zero() }
    }
}

impl<T: TValue> TCoordinate<T> for SPoint3D<T> {
    closed spec fn model(&self) -> (int, int, int) {
        (self.x.view_int(), self.y.view_int(), self.z.view_int())
    }

    open spec fn axis_writable(a: Axis) -> bool {
        true
    }

    proof fn lemma_xy_writable() {
    }

    proof fn lemma_missing_axis_reads_zero(&self, a: Axis) {
    }

    proof fn lemma_model_in_range(&self) {
        self.x.lemma_value_in_range();
        self.y.lemma_value_in_range();
        self.z.lemma_value_in_range();
    }

    fn get_axis_value(&self, axis: Axis) -> (r: T) {
        match axis {
            Axis::X => self.x,
            Axis::Y => self.y,
            Axis::Z => self.z,
        }
    }

    fn set_axis_value(&mut self, axis: Axis, value: T) {
        match axis {
            Axis::X => self.x = value,
            Axis::Y => self.y = value,
            Axis::Z => self.z = value,
        }
    }
}

impl<T: TValue> TTransformable<T> for SPoint3D<T> {
    fn shift<U: TCoordinate<T>>(&mut self, coord: &U) {
        self.x = self.x.add_val(coord.get_axis_value(Axis::X));
        self.y = self.y.add_val(coord.get_axis_value(Axis::Y));
        self.z = self.z.add_val(coord.get_axis_value(Axis::Z));
    }

    fn shift_axis(&mut self, axis: Axis, value: T) {
        match axis {
            Axis::X => self.x = self.x.add_val(value),
            Axis::Y => self.y = self.y.add_val(value),
            Axis::Z => self.z = self.z.add_val(value),
        }
    }

    fn flip_axis(&mut self, axis1: Axis, axis2: Axis) {
        let orig_axis2_value: T = self.get_axis_value(axis2);
        let orig_axis1_value: T = self.get_axis_value(axis1);
        self.set_axis_value(axis2, orig_axis1_value);
        self.set_axis_value(axis1, orig_axis2_value);
    }

    fn reflect(&mut self) {
        self.x = self.x.neg_val();
        self.y = self.y.neg_val();
        self.z = self.z.neg_val();
    }

    fn reflect_axis(&mut self, axis: Axis) {
        match axis {
            Axis::X => self.x = self.x.neg_val(),
            Axis::Y => self.y = self.y.neg_val(),
            Axis::Z => self.z = self.z.neg_val(),
        }
    }
}

} // verus!
