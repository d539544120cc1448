//! The coordinate capability (axis-indexed get/set) and the transformable
//! capability (shift, axis swap, reflection) built on top of it, together
//! with the spec-level transformations that their contracts are stated over.
//!
//! Every contract speaks of a point's `model`: its coordinates as a triple of
//! mathematical integers. A 2-coordinate implementor has no Z slot; it reads
//! zero there and refuses writes there, so one generic algorithm can walk all
//! three axes of any source while only ever writing the slots a receiver has.

use vstd::prelude::*;
use crate::axis::{Axis, axis_of, with_axis};
use crate::value::TValue;

verus! {

/// `c` translated componentwise by `d`; the Z coordinate moves only when the
/// receiver has a Z slot (`use_z`), otherwise it is left as it stands.
pub open spec fn spec_shift(c: (int, int, int), d: (int, int, int), use_z: bool) -> (int, int, int) {
    (c.0 + d.0, c.1 + d.1, if use_z { c.2 + d.2 } else { c.2 })
}

/// `c` with `d` added to the one coordinate that `a` names.
pub open spec fn spec_shift_axis(c: (int, int, int), a: Axis, d: int) -> (int, int, int) {
    with_axis(c, a, axis_of(c, a) + d)
}

/// `c` with the coordinates named by `a1` and `a2` exchanged: first the slot
/// of `a2` takes the value at `a1`, then the slot of `a1` takes the value
/// that `a2` held before.
pub open spec fn spec_flip_axis(c: (int, int, int), a1: Axis, a2: Axis) -> (int, int, int) {
    with_axis(with_axis(c, a2, axis_of(c, a1)), a1, axis_of(c, a2))
}

/// `c` reflected through the origin: every coordinate negated.
pub open spec fn spec_reflect(c: (int, int, int)) -> (int, int, int) {
    (-c.0, -c.1, -c.2)
}

/// `c` with the one coordinate that `a` names negated.
pub open spec fn spec_reflect_axis(c: (int, int, int), a: Axis) -> (int, int, int) {
    with_axis(c, a, -axis_of(c, a))
}

/// `c` with every coordinate multiplied by the scalar `k`.
pub open spec fn spec_scale(c: (int, int, int), k: int) -> (int, int, int) {
    (c.0 * k, c.1 * k, c.2 * k)
}

/// `c` multiplied componentwise by `d`.
pub open spec fn spec_mul_pointwise(c: (int, int, int), d: (int, int, int)) -> (int, int, int) {
    (c.0 * d.0, c.1 * d.1, c.2 * d.2)
}

/// Every coordinate of a shift of `c` by `d` is representable in `T`
/// (the Z sum only matters when the receiver has a Z slot).
pub open spec fn shift_fits<T: TValue>(c: (int, int, int), d: (int, int, int), use_z: bool) -> bool {
    &&& T::in_range(c.0 + d.0)
    &&& T::in_range(c.1 + d.1)
    &&& (use_z ==> T::in_range(c.2 + d.2))
}

/// Every coordinate of the reflection of `c` is representable in `T`.
pub open spec fn reflect_fits<T: TValue>(c: (int, int, int)) -> bool {
    &&& T::in_range(-c.0)
    &&& T::in_range(-c.1)
    &&& T::in_range(-c.2)
}

/// Every coordinate of `c` scaled by `k` is representable in `T`.
pub open spec fn scale_fits<T: TValue>(c: (int, int, int), k: int) -> bool {
    &&& T::in_range(c.0 * k)
    &&& T::in_range(c.1 * k)
    &&& T::in_range(c.2 * k)
}

/// Every coordinate of the componentwise product of `c` and `d` is
/// representable in `T`.
pub open spec fn mul_pointwise_fits<T: TValue>(c: (int, int, int), d: (int, int, int)) -> bool {
    &&& T::in_range(c.0 * d.0)
    &&& T::in_range(c.1 * d.1)
    &&& T::in_range(c.2 * d.2)
}

/// The coordinate capability: read and write one coordinate slot by axis.
///
/// An implementor is abstracted as a triple of integers (`model`); which
/// slots really exist is told by `axis_writable`. Reading a missing slot
/// yields zero; writing one is excluded by precondition.
pub trait TCoordinate<T: TValue>: Sized {
    /// The coordinates as mathematical integers (x, y, z); an implementor
    /// without a Z slot reports zero for z.
    spec fn model(&self) -> (int, int, int);

    /// Whether `a` names a slot this implementor really carries.
    spec fn axis_writable(a: Axis) -> bool;

    /// Every implementor carries the X and Y slots.
    proof fn lemma_xy_writable()
        ensures
            Self::axis_writable(Axis::X),
            Self::axis_writable(Axis::Y),
    ;

    /// An axis with no slot reads as zero.
    proof fn lemma_missing_axis_reads_zero(&self, a: Axis)
        requires
            !Self::axis_writable(a),
        ensures
            axis_of(self.model(), a) == 0,
    ;

    /// Every coordinate of the model is representable in `T`.
    proof fn lemma_model_in_range(&self)
        ensures
            T::in_range(self.model().0),
            T::in_range(self.model().1),
            T::in_range(self.model().2),
    ;

    /// The value at the slot `axis` names, or zero for a missing slot.
    fn get_axis_value(&self, axis: Axis) -> (r: T)
        ensures
            r.view_int() == axis_of(self.model(), axis),
    ;

    /// Overwrite the slot `axis` names; the axis must be one this
    /// implementor carries.
    fn set_axis_value(&mut self, axis: Axis, value: T)
        requires
            Self::axis_writable(axis),
        ensures
            final(self).model() == with_axis(old(self).model(), axis, value.view_int()),
    ;
}

/// The transformable capability: affine transformations expressed through
/// the coordinate capability, so that one algorithm per point type covers
/// every axis pattern and every scalar type.
pub trait TTransformable<T: TValue>: TCoordinate<T> {
    /// Add, axis by axis, the coordinates of `coord` into `self`. The source
    /// may be of any arity: a missing source slot contributes zero, and a
    /// missing receiver slot is left untouched.
    fn shift<U: TCoordinate<T>>(&mut self, coord: &U)
        requires
            shift_fits::<T>(old(self).model(), coord.model(), Self::axis_writable(Axis::Z)),
        ensures
            final(self).model() == spec_shift(
                old(self).model(),
                coord.model(),
                Self::axis_writable(Axis::Z),
            ),
    ;

    /// Add `value` to the one slot `axis` names.
    fn shift_axis(&mut self, axis: Axis, value: T)
        requires
            Self::axis_writable(axis),
            T::in_range(axis_of(old(self).model(), axis) + value.view_int()),
        ensures
            final(self).model() == spec_shift_axis(old(self).model(), axis, value.view_int()),
    ;

    /// Exchange the values held at the two named slots; a pure permutation.
    fn flip_axis(&mut self, axis1: Axis, axis2: Axis)
        requires
            Self::axis_writable(axis1),
            Self::axis_writable(axis2),
        ensures
            final(self).model() == spec_flip_axis(old(self).model(), axis1, axis2),
    ;

    /// Negate every coordinate: point reflection through the origin.
    fn reflect(&mut self)
        requires
            reflect_fits::<T>(old(self).model()),
        ensures
            final(self).model() == spec_reflect(old(self).model()),
    ;

    /// Negate the one coordinate that `axis` names.
    fn reflect_axis(&mut self, axis: Axis)
        requires
            Self::axis_writable(axis),
            T::in_range(-axis_of(old(self).model(), axis)),
        ensures
            final(self).model() == spec_reflect_axis(old(self).model(), axis),
    ;
}

/// A full point: comparable, orderable, copyable, defaultable, and carrying
/// both the coordinate and the transformable capability.
pub trait TPoint<T: TValue>: PartialEq + PartialOrd + Copy + Clone + Default + TTransformable<T> {
}

impl<T: TValue, U> TPoint<T> for U where
    U: PartialEq + PartialOrd + Copy + Clone + Default + TTransformable<T>,
{
}

} // verus!
