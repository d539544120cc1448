//! The scalar abstraction for coordinates: an exact integer-like value with
//! ring arithmetic, total order, and sign operations, each pinned to a
//! mathematical-integer view. Points are generic over any implementor.

use vstd::prelude::*;

verus! {

/// A coordinate scalar. Every value is viewed as a mathematical integer
/// (`view_int`), and `in_range` describes which integers the type can hold;
/// each operation is exact on the view whenever the result is in range.
///
/// The constraint deliberately includes an additive inverse (`neg_val`), so
/// that point reflection is expressible for every implementor.
pub trait TValue: Sized + Copy {
    /// The mathematical integer this value denotes.
    spec fn view_int(self) -> int;

    /// Whether the type can hold the integer `v`.
    spec fn in_range(v: int) -> bool;

    /// Every value denotes an in-range integer.
    proof fn lemma_value_in_range(self)
        ensures
            Self::in_range(self.view_int()),
    ;

    /// The ring identities are representable.
    proof fn lemma_identities_in_range()
        ensures
            Self::in_range(0),
            Self::in_range(1),
    ;

    /// The additive identity.
    fn zero() -> (r: Self)
        ensures
            r.view_int() == 0,
    ;

    /// The multiplicative identity.
    fn one() -> (r: Self)
        ensures
            r.view_int() == 1,
    ;

    /// Exact addition; the result must be representable.
    fn add_val(self, rhs: Self) -> (r: Self)
        requires
            Self::in_range(self.view_int() + rhs.view_int()),
        ensures
            r.view_int() == self.view_int() + rhs.view_int(),
    ;

    /// Exact subtraction; the result must be representable.
    fn sub_val(self, rhs: Self) -> (r: Self)
        requires
            Self::in_range(self.view_int() - rhs.view_int()),
        ensures
            r.view_int() == self.view_int() - rhs.view_int(),
    ;

    /// Exact multiplication; the result must be representable.
    fn mul_val(self, rhs: Self) -> (r: Self)
        requires
            Self::in_range(self.view_int() * rhs.view_int()),
        ensures
            r.view_int() == self.view_int() * rhs.view_int(),
    ;

    /// The additive inverse; it must be representable.
    fn neg_val(self) -> (r: Self)
        requires
            Self::in_range(-self.view_int()),
        ensures
            r.view_int() == -self.view_int(),
    ;

    /// Equality of the denoted integers.
    fn eq_val(self, rhs: Self) -> (r: bool)
        ensures
            r == (self.view_int() == rhs.view_int()),
    ;

    /// Strict order of the denoted integers.
    fn lt_val(self, rhs: Self) -> (r: bool)
        ensures
            r == (self.view_int() < rhs.view_int()),
    ;

    /// Whether the value is strictly below zero.
    fn is_negative(self) -> (r: bool)
        ensures
            r == (self.view_int() < 0),
    ;

    /// Whether the value is strictly above zero.
    fn is_positive(self) -> (r: bool)
        ensures
            r == (self.view_int() > 0),
    ;
}

impl TValue for i64 {
    open spec fn view_int(self) -> int {
        self as int
    }

    open spec fn in_range(v: int) -> bool {
        i64::MIN <= v <= i64::MAX
    }

    proof fn lemma_value_in_range(self) {
    }

    proof fn lemma_identities_in_range() {
    }

    fn zero() -> (r: Self) {
        0i64
    }

    fn one() -> (r: Self) {
        1i64
    }

    fn add_val(self, rhs: Self) -> (r: Self) {
        self + rhs
    }

    fn sub_val(self, rhs: Self) -> (r: Self) {
        self - rhs
    }

    fn mul_val(self, rhs: Self) -> (r: Self) {
        self * rhs
    }

    fn neg_val(self) -> (r: Self) {
        -self
    }

    fn eq_val(self, rhs: Self) -> (r: bool) {
        self == rhs
    }

    fn lt_val(self, rhs: Self) -> (r: bool) {
        self < rhs
    }

    fn is_negative(self) -> (r: bool) {
        self < 0
    }

    fn is_positive(self) -> (r: bool) {
        self > 0
    }
}

impl TValue for i32 {
    open spec fn view_int(self) -> int {
        self as int
    }

    open spec fn in_range(v: int) -> bool {
        i32::MIN <= v <= i32::MAX
    }

    proof fn lemma_value_in_range(self) {
    }

    proof fn lemma_identities_in_range() {
    }

    fn zero() -> (r: Self) {
        0i32
    }

    fn one() -> (r: Self) {
        1i32
    }

    fn add_val(self, rhs: Self) -> (r: Self) {
        self + rhs
    }

    fn sub_val(self, rhs: Self) -> (r: Self) {
        self - rhs
    }

    fn mul_val(self, rhs: Self) -> (r: Self) {
        self * rhs
    }

    fn neg_val(self) -> (r: Self) {
        -self
    }

    fn eq_val(self, rhs: Self) -> (r: bool) {
        self == rhs
    }

    fn lt_val(self, rhs: Self) -> (r: bool) {
        self < rhs
    }

    fn is_negative(self) -> (r: bool) {
        self < 0
    }

    fn is_positive(self) -> (r: bool) {
        self > 0
    }
}

} // verus!
