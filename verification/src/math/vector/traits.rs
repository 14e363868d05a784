//! The requirements on vector elements, and the capability of acting
//! like a vector.

use crate::num::{One, Zero};
use vstd::prelude::*;

verus! {

/// Truncating division, the semantics of `/` on Rust's integer types:
/// the quotient is rounded towards zero. (`/` on `int` is Euclidean
/// division; applying it to a non-negative dividend and negating as
/// needed yields the truncating quotient.)
pub open spec fn trunc_div(a: int, b: int) -> int {
    if a >= 0 {
        a / b
    } else {
        -((-a) / b)
    }
}

/// Euclidean division by minus one negates.
proof fn lemma_div_neg_one(a: int)
    ensures
        a / (-1int) == -a,
{
    assert(a / (-1int) == -a) by (nonlinear_arith);
}

/// The requirements on the type of vector elements: a copyable scalar
/// with ring operations, identities, and comparability.
///
/// Each element value is modelled by the mathematical integer
/// `as_int`; the arithmetic methods promise the exact integer result
/// whenever it is representable (`in_range`). The `*_val` functions
/// name, at the specification level, the value each operation returns,
/// so that contracts can speak about chains of operations on element
/// types whose arithmetic the model does not capture exactly.
pub trait VectorElement: Zero + One + Sized + Copy {
    /// The mathematical integer that models this value. The default
    /// leaves the model unspecified; a type whose values the integers
    /// cannot model exactly (a floating-point scalar) keeps it, and the
    /// integer-level clauses then say nothing that can be relied on for
    /// that type.
    open spec fn as_int(self) -> int {
        vstd::pervasive::arbitrary()
    }

    /// Whether the integer `x` is representable in this type. The
    /// default places no restriction.
    open spec fn in_range(x: int) -> bool {
        true
    }

    /// Whether the integer model is exact: `as_int` is injective, maps
    /// the identities to 0 and 1, and every operation returns exactly
    /// the modelled integer. The integer types say yes; a type that
    /// keeps the default model must say no, and the clauses below that
    /// are guarded by this flag then promise nothing of it.
    spec fn obeys_model() -> bool;

    /// The value `self + rhs` evaluates to.
    spec fn add_val(self, rhs: Self) -> Self;

    /// The value `self - rhs` evaluates to.
    spec fn sub_val(self, rhs: Self) -> Self;

    /// The value `self * rhs` evaluates to.
    spec fn mul_val(self, rhs: Self) -> Self;

    /// The value `self / rhs` evaluates to.
    spec fn div_val(self, rhs: Self) -> Self;

    /// The value `-self` evaluates to.
    spec fn neg_val(self) -> Self;

    /// The facts every implementation owes its callers: zero is
    /// modelled by 0, every value is representable and, where the
    /// model is exact, one is modelled by 1 and the model is
    /// injective, so equal models mean equal values.
    proof fn lemma_element_model(self, other: Self)
        ensures
            Self::zero_spec().as_int() == 0,
            Self::in_range(self.as_int()),
            Self::obeys_model() ==> Self::one_spec().as_int() == 1,
            Self::obeys_model() ==> (self.as_int() == other.as_int() ==> self == other),
    ;

    /// Addition; the caller shows the sum is representable.
    fn add(self, rhs: Self) -> (r: Self)
        requires
            Self::in_range(self.as_int() + rhs.as_int()),
        ensures
            r == self.add_val(rhs),
            r.as_int() == self.as_int() + rhs.as_int(),
    ;

    /// Subtraction; the caller shows the difference is representable.
    fn sub(self, rhs: Self) -> (r: Self)
        requires
            Self::in_range(self.as_int() - rhs.as_int()),
        ensures
            r == self.sub_val(rhs),
            r.as_int() == self.as_int() - rhs.as_int(),
    ;

    /// Multiplication; the caller shows the product is representable.
    fn mul(self, rhs: Self) -> (r: Self)
        requires
            Self::in_range(self.as_int() * rhs.as_int()),
        ensures
            r == self.mul_val(rhs),
            r.as_int() == self.as_int() * rhs.as_int(),
    ;

    /// Division, rounding towards zero; division by zero is excluded,
    /// as is the one overflowing quotient of signed types.
    fn div(self, rhs: Self) -> (r: Self)
        requires
            rhs.as_int() != 0,
            Self::in_range(trunc_div(self.as_int(), rhs.as_int())),
        ensures
            r == self.div_val(rhs),
            r.as_int() == trunc_div(self.as_int(), rhs.as_int()),
    ;

    /// Negation; the caller shows the negated value is representable.
    fn neg(self) -> (r: Self)
        requires
            Self::in_range(-self.as_int()),
        ensures
            r == self.neg_val(),
            r.as_int() == -self.as_int(),
    ;

    /// Strict comparison; on an exact model, of the modelled values.
    fn lt(self, rhs: Self) -> (r: bool)
        ensures
            Self::obeys_model() ==> r == (self.as_int() < rhs.as_int()),
    ;

    /// Equality; on an exact model, of the modelled values.
    fn eq_val(self, rhs: Self) -> (r: bool)
        ensures
            Self::obeys_model() ==> r == (self.as_int() == rhs.as_int()),
    ;
}

impl VectorElement for i32 {
    open spec fn as_int(self) -> int {
        self as int
    }

    open spec fn obeys_model() -> bool {
        true
    }

    open spec fn in_range(x: int) -> bool {
        i32::MIN <= x <= i32::MAX
    }

    open spec fn add_val(self, rhs: Self) -> Self {
        (self + rhs) as i32
    }

    open spec fn sub_val(self, rhs: Self) -> Self {
        (self - rhs) as i32
    }

    open spec fn mul_val(self, rhs: Self) -> Self {
        (self * rhs) as i32
    }

    open spec fn div_val(self, rhs: Self) -> Self {
        trunc_div(self as int, rhs as int) as i32
    }

    open spec fn neg_val(self) -> Self {
        (-self) as i32
    }

    proof fn lemma_element_model(self, other: Self) {
    }

    fn add(self, rhs: Self) -> (r: Self) {
        self + rhs
    }

    fn sub(self, rhs: Self) -> (r: Self) {
        self - rhs
    }

    fn mul(self, rhs: Self) -> (r: Self) {
        self * rhs
    }

    fn div(self, rhs: Self) -> (r: Self) {
        proof {
            if self == i32::MIN && rhs == -1 {
                lemma_div_neg_one(-(self as int));
            }
        }
        self / rhs
    }

    fn neg(self) -> (r: Self) {
        -self
    }

    fn lt(self, rhs: Self) -> (r: bool) {
        self < rhs
    }

    fn eq_val(self, rhs: Self) -> (r: bool) {
        self == rhs
    }
}


impl VectorElement for i8 {
    open spec fn as_int(self) -> int {
        self as int
    }

    open spec fn obeys_model() -> bool {
        true
    }

    open spec fn in_range(x: int) -> bool {
        i8::MIN <= x <= i8::MAX
    }

    open spec fn add_val(self, rhs: Self) -> Self {
        (self + rhs) as i8
    }

    open spec fn sub_val(self, rhs: Self) -> Self {
        (self - rhs) as i8
    }

    open spec fn mul_val(self, rhs: Self) -> Self {
        (self * rhs) as i8
    }

    open spec fn div_val(self, rhs: Self) -> Self {
        trunc_div(self as int, rhs as int) as i8
    }

    open spec fn neg_val(self) -> Self {
        (-self) as i8
    }

    proof fn lemma_element_model(self, other: Self) {
    }

    fn add(self, rhs: Self) -> (r: Self) {
        self + rhs
    }

    fn sub(self, rhs: Self) -> (r: Self) {
        self - rhs
    }

    fn mul(self, rhs: Self) -> (r: Self) {
        self * rhs
    }

    fn div(self, rhs: Self) -> (r: Self) {
        proof {
            if self == i8::MIN && rhs == -1 {
                lemma_div_neg_one(-(self as int));
            }
        }
        self / rhs
    }

    fn neg(self) -> (r: Self) {
        -self
    }

    fn lt(self, rhs: Self) -> (r: bool) {
        self < rhs
    }

    fn eq_val(self, rhs: Self) -> (r: bool) {
        self == rhs
    }
}

impl VectorElement for i16 {
    open spec fn as_int(self) -> int {
        self as int
    }

    open spec fn obeys_model() -> bool {
        true
    }

    open spec fn in_range(x: int) -> bool {
        i16::MIN <= x <= i16::MAX
    }

    open spec fn add_val(self, rhs: Self) -> Self {
        (self + rhs) as i16
    }

    open spec fn sub_val(self, rhs: Self) -> Self {
        (self - rhs) as i16
    }

    open spec fn mul_val(self, rhs: Self) -> Self {
        (self * rhs) as i16
    }

    open spec fn div_val(self, rhs: Self) -> Self {
        trunc_div(self as int, rhs as int) as i16
    }

    open spec fn neg_val(self) -> Self {
        (-self) as i16
    }

    proof fn lemma_element_model(self, other: Self) {
    }

    fn add(self, rhs: Self) -> (r: Self) {
        self + rhs
    }

    fn sub(self, rhs: Self) -> (r: Self) {
        self - rhs
    }

    fn mul(self, rhs: Self) -> (r: Self) {
        self * rhs
    }

    fn div(self, rhs: Self) -> (r: Self) {
        proof {
            if self == i16::MIN && rhs == -1 {
                lemma_div_neg_one(-(self as int));
            }
        }
        self / rhs
    }

    fn neg(self) -> (r: Self) {
        -self
    }

    fn lt(self, rhs: Self) -> (r: bool) {
        self < rhs
    }

    fn eq_val(self, rhs: Self) -> (r: bool) {
        self == rhs
    }
}

impl VectorElement for i64 {
    open spec fn as_int(self) -> int {
        self as int
    }

    open spec fn obeys_model() -> bool {
        true
    }

    open spec fn in_range(x: int) -> bool {
        i64::MIN <= x <= i64::MAX
    }

    open spec fn add_val(self, rhs: Self) -> Self {
        (self + rhs) as i64
    }

    open spec fn sub_val(self, rhs: Self) -> Self {
        (self - rhs) as i64
    }

    open spec fn mul_val(self, rhs: Self) -> Self {
        (self * rhs) as i64
    }

    open spec fn div_val(self, rhs: Self) -> Self {
        trunc_div(self as int, rhs as int) as i64
    }

    open spec fn neg_val(self) -> Self {
        (-self) as i64
    }

    proof fn lemma_element_model(self, other: Self) {
    }

    fn add(self, rhs: Self) -> (r: Self) {
        self + rhs
    }

    fn sub(self, rhs: Self) -> (r: Self) {
        self - rhs
    }

    fn mul(self, rhs: Self) -> (r: Self) {
        self * rhs
    }

    fn div(self, rhs: Self) -> (r: Self) {
        proof {
            if self == i64::MIN && rhs == -1 {
                lemma_div_neg_one(-(self as int));
            }
        }
        self / rhs
    }

    fn neg(self) -> (r: Self) {
        -self
    }

    fn lt(self, rhs: Self) -> (r: bool) {
        self < rhs
    }

    fn eq_val(self, rhs: Self) -> (r: bool) {
        self == rhs
    }
}

impl VectorElement for isize {
    open spec fn as_int(self) -> int {
        self as int
    }

    open spec fn obeys_model() -> bool {
        true
    }

    open spec fn in_range(x: int) -> bool {
        isize::MIN <= x <= isize::MAX
    }

    open spec fn add_val(self, rhs: Self) -> Self {
        (self + rhs) as isize
    }

    open spec fn sub_val(self, rhs: Self) -> Self {
        (self - rhs) as isize
    }

    open spec fn mul_val(self, rhs: Self) -> Self {
        (self * rhs) as isize
    }

    open spec fn div_val(self, rhs: Self) -> Self {
        trunc_div(self as int, rhs as int) as isize
    }

    open spec fn neg_val(self) -> Self {
        (-self) as isize
    }

    proof fn lemma_element_model(self, other: Self) {
    }

    fn add(self, rhs: Self) -> (r: Self) {
        self + rhs
    }

    fn sub(self, rhs: Self) -> (r: Self) {
        self - rhs
    }

    fn mul(self, rhs: Self) -> (r: Self) {
        self * rhs
    }

    fn div(self, rhs: Self) -> (r: Self) {
        proof {
            if self == isize::MIN && rhs == -1 {
                lemma_div_neg_one(-(self as int));
            }
        }
        self / rhs
    }

    fn neg(self) -> (r: Self) {
        -self
    }

    fn lt(self, rhs: Self) -> (r: bool) {
        self < rhs
    }

    fn eq_val(self, rhs: Self) -> (r: bool) {
        self == rhs
    }
}

impl VectorElement for u8 {
    open spec fn as_int(self) -> int {
        self as int
    }

    open spec fn obeys_model() -> bool {
        true
    }

    open spec fn in_range(x: int) -> bool {
        0 <= x <= u8::MAX
    }

    open spec fn add_val(self, rhs: Self) -> Self {
        (self + rhs) as u8
    }

    open spec fn sub_val(self, rhs: Self) -> Self {
        (self - rhs) as u8
    }

    open spec fn mul_val(self, rhs: Self) -> Self {
        (self * rhs) as u8
    }

    open spec fn div_val(self, rhs: Self) -> Self {
        trunc_div(self as int, rhs as int) as u8
    }

    open spec fn neg_val(self) -> Self {
        (0 - self) as u8
    }

    proof fn lemma_element_model(self, other: Self) {
    }

    fn add(self, rhs: Self) -> (r: Self) {
        self + rhs
    }

    fn sub(self, rhs: Self) -> (r: Self) {
        self - rhs
    }

    fn mul(self, rhs: Self) -> (r: Self) {
        self * rhs
    }

    fn div(self, rhs: Self) -> (r: Self) {
        self / rhs
    }

    fn neg(self) -> (r: Self) {
        0 - self
    }

    fn lt(self, rhs: Self) -> (r: bool) {
        self < rhs
    }

    fn eq_val(self, rhs: Self) -> (r: bool) {
        self == rhs
    }
}

impl VectorElement for u16 {
    open spec fn as_int(self) -> int {
        self as int
    }

    open spec fn obeys_model() -> bool {
        true
    }

    open spec fn in_range(x: int) -> bool {
        0 <= x <= u16::MAX
    }

    open spec fn add_val(self, rhs: Self) -> Self {
        (self + rhs) as u16
    }

    open spec fn sub_val(self, rhs: Self) -> Self {
        (self - rhs) as u16
    }

    open spec fn mul_val(self, rhs: Self) -> Self {
        (self * rhs) as u16
    }

    open spec fn div_val(self, rhs: Self) -> Self {
        trunc_div(self as int, rhs as int) as u16
    }

    open spec fn neg_val(self) -> Self {
        (0 - self) as u16
    }

    proof fn lemma_element_model(self, other: Self) {
    }

    fn add(self, rhs: Self) -> (r: Self) {
        self + rhs
    }

    fn sub(self, rhs: Self) -> (r: Self) {
        self - rhs
    }

    fn mul(self, rhs: Self) -> (r: Self) {
        self * rhs
    }

    fn div(self, rhs: Self) -> (r: Self) {
        self / rhs
    }

    fn neg(self) -> (r: Self) {
        0 - self
    }

    fn lt(self, rhs: Self) -> (r: bool) {
        self < rhs
    }

    fn eq_val(self, rhs: Self) -> (r: bool) {
        self == rhs
    }
}

impl VectorElement for u32 {
    open spec fn as_int(self) -> int {
        self as int
    }

    open spec fn obeys_model() -> bool {
        true
    }

    open spec fn in_range(x: int) -> bool {
        0 <= x <= u32::MAX
    }

    open spec fn add_val(self, rhs: Self) -> Self {
        (self + rhs) as u32
    }

    open spec fn sub_val(self, rhs: Self) -> Self {
        (self - rhs) as u32
    }

    open spec fn mul_val(self, rhs: Self) -> Self {
        (self * rhs) as u32
    }

    open spec fn div_val(self, rhs: Self) -> Self {
        trunc_div(self as int, rhs as int) as u32
    }

    open spec fn neg_val(self) -> Self {
        (0 - self) as u32
    }

    proof fn lemma_element_model(self, other: Self) {
    }

    fn add(self, rhs: Self) -> (r: Self) {
        self + rhs
    }

    fn sub(self, rhs: Self) -> (r: Self) {
        self - rhs
    }

    fn mul(self, rhs: Self) -> (r: Self) {
        self * rhs
    }

    fn div(self, rhs: Self) -> (r: Self) {
        self / rhs
    }

    fn neg(self) -> (r: Self) {
        0 - self
    }

    fn lt(self, rhs: Self) -> (r: bool) {
        self < rhs
    }

    fn eq_val(self, rhs: Self) -> (r: bool) {
        self == rhs
    }
}

impl VectorElement for u64 {
    open spec fn as_int(self) -> int {
        self as int
    }

    open spec fn obeys_model() -> bool {
        true
    }

    open spec fn in_range(x: int) -> bool {
        0 <= x <= u64::MAX
    }

    open spec fn add_val(self, rhs: Self) -> Self {
        (self + rhs) as u64
    }

    open spec fn sub_val(self, rhs: Self) -> Self {
        (self - rhs) as u64
    }

    open spec fn mul_val(self, rhs: Self) -> Self {
        (self * rhs) as u64
    }

    open spec fn div_val(self, rhs: Self) -> Self {
        trunc_div(self as int, rhs as int) as u64
    }

    open spec fn neg_val(self) -> Self {
        (0 - self) as u64
    }

    proof fn lemma_element_model(self, other: Self) {
    }

    fn add(self, rhs: Self) -> (r: Self) {
        self + rhs
    }

    fn sub(self, rhs: Self) -> (r: Self) {
        self - rhs
    }

    fn mul(self, rhs: Self) -> (r: Self) {
        self * rhs
    }

    fn div(self, rhs: Self) -> (r: Self) {
        self / rhs
    }

    fn neg(self) -> (r: Self) {
        0 - self
    }

    fn lt(self, rhs: Self) -> (r: bool) {
        self < rhs
    }

    fn eq_val(self, rhs: Self) -> (r: bool) {
        self == rhs
    }
}

impl VectorElement for usize {
    open spec fn as_int(self) -> int {
        self as int
    }

    open spec fn obeys_model() -> bool {
        true
    }

    open spec fn in_range(x: int) -> bool {
        0 <= x <= usize::MAX
    }

    open spec fn add_val(self, rhs: Self) -> Self {
        (self + rhs) as usize
    }

    open spec fn sub_val(self, rhs: Self) -> Self {
        (self - rhs) as usize
    }

    open spec fn mul_val(self, rhs: Self) -> Self {
        (self * rhs) as usize
    }

    open spec fn div_val(self, rhs: Self) -> Self {
        trunc_div(self as int, rhs as int) as usize
    }

    open spec fn neg_val(self) -> Self {
        (0 - self) as usize
    }

    proof fn lemma_element_model(self, other: Self) {
    }

    fn add(self, rhs: Self) -> (r: Self) {
        self + rhs
    }

    fn sub(self, rhs: Self) -> (r: Self) {
        self - rhs
    }

    fn mul(self, rhs: Self) -> (r: Self) {
        self * rhs
    }

    fn div(self, rhs: Self) -> (r: Self) {
        self / rhs
    }

    fn neg(self) -> (r: Self) {
        0 - self
    }

    fn lt(self, rhs: Self) -> (r: bool) {
        self < rhs
    }

    fn eq_val(self, rhs: Self) -> (r: bool) {
        self == rhs
    }
}


/// The capability of being read and written as a fixed-size sequence
/// of `D` elements by index. Implemented by native arrays, tuples, and
/// the concrete vector types, so that operations can accept anything
/// vector-shaped.
pub trait VectorLike<T: VectorElement, const D: usize> {
    /// The sequence of element values this vector-like value holds.
    spec fn vals(&self) -> Seq<T>;

    /// The sequence always holds exactly `D` elements.
    proof fn lemma_vals_len(&self)
        ensures
            self.vals().len() == D,
    ;

    /// Reads the element at `index`.
    fn get(&self, index: usize) -> (r: T)
        requires
            index < D,
        ensures
            r == self.vals()[index as int],
    ;

    /// Replaces the element at `index` with `value`.
    fn set(&mut self, index: usize, value: T)
        requires
            index < D,
        ensures
            final(self).vals() == old(self).vals().update(index as int, value),
    ;
}

impl<T: VectorElement, const D: usize> VectorLike<T, D> for [T; D] {
    open spec fn vals(&self) -> Seq<T> {
        self@
    }

    proof fn lemma_vals_len(&self) {
    }

    fn get(&self, index: usize) -> (r: T) {
        self[index]
    }

    fn set(&mut self, index: usize, value: T) {
        self[index] = value;
    }
}

impl<T: VectorElement> VectorLike<T, 1> for (T,) {
    open spec fn vals(&self) -> Seq<T> {
        seq![self.0]
    }

    proof fn lemma_vals_len(&self) {
    }

    fn get(&self, index: usize) -> (r: T) {
        self.0
    }

    fn set(&mut self, index: usize, value: T) {
        self.0 = value;
        proof {
            assert(self.vals() =~= old(self).vals().update(index as int, value));
        }
    }
}

impl<T: VectorElement> VectorLike<T, 2> for (T, T) {
    open spec fn vals(&self) -> Seq<T> {
        seq![self.0, self.1]
    }

    proof fn lemma_vals_len(&self) {
    }

    fn get(&self, index: usize) -> (r: T) {
        if index == 0 {
            self.0
        } else {
            self.1
        }
    }

    fn set(&mut self, index: usize, value: T) {
        if index == 0 {
            self.0 = value;
        } else {
            self.1 = value;
        }
        proof {
            assert(self.vals() =~= old(self).vals().update(index as int, value));
        }
    }
}

impl<T: VectorElement> VectorLike<T, 3> for (T, T, T) {
    open spec fn vals(&self) -> Seq<T> {
        seq![self.0, self.1, self.2]
    }

    proof fn lemma_vals_len(&self) {
    }

    fn get(&self, index: usize) -> (r: T) {
        if index == 0 {
            self.0
        } else if index == 1 {
            self.1
        } else {
            self.2
        }
    }

    fn set(&mut self, index: usize, value: T) {
        if index == 0 {
            self.0 = value;
        } else if index == 1 {
            self.1 = value;
        } else {
            self.2 = value;
        }
        proof {
            assert(self.vals() =~= old(self).vals().update(index as int, value));
        }
    }
}

impl<T: VectorElement> VectorLike<T, 4> for (T, T, T, T) {
    open spec fn vals(&self) -> Seq<T> {
        seq![self.0, self.1, self.2, self.3]
    }

    proof fn lemma_vals_len(&self) {
    }

    fn get(&self, index: usize) -> (r: T) {
        if index == 0 {
            self.0
        } else if index == 1 {
            self.1
        } else if index == 2 {
            self.2
        } else {
            self.3
        }
    }

    fn set(&mut self, index: usize, value: T) {
        if index == 0 {
            self.0 = value;
        } else if index == 1 {
            self.1 = value;
        } else if index == 2 {
            self.2 = value;
        } else {
            self.3 = value;
        }
        proof {
            assert(self.vals() =~= old(self).vals().update(index as int, value));
        }
    }
}


/// The extra requirements on floating-point elements: a square root
/// and the trigonometric functions needed by angles and rotations, and
/// arithmetic that is defined for every operand.
///
/// No type in this library implements the trait; a caller supplies an
/// implementation over its own floating-point scalar. The `..._val`
/// spec functions name, per implementation, the value each function
/// returns; nothing more is assumed of them.
pub trait FloatElement: VectorElement {
    /// The value `sqrt` returns.
    spec fn sqrt_val(self) -> Self;

    /// The value `acos` returns.
    spec fn acos_val(self) -> Self;

    /// The value `sin` returns.
    spec fn sin_val(self) -> Self;

    /// The value `cos` returns.
    spec fn cos_val(self) -> Self;

    /// A floating element represents every magnitude (at a loss of
    /// precision, which the model does not track), so no operation is
    /// restricted by range.
    proof fn lemma_total()
        ensures
            forall|x: int| Self::in_range(x),
    ;

    /// The square root.
    fn sqrt(self) -> (r: Self)
        ensures
            r == self.sqrt_val(),
    ;

    /// The arc cosine.
    fn acos(self) -> (r: Self)
        ensures
            r == self.acos_val(),
    ;

    /// The sine.
    fn sin(self) -> (r: Self)
        ensures
            r == self.sin_val(),
    ;

    /// The cosine.
    fn cos(self) -> (r: Self)
        ensures
            r == self.cos_val(),
    ;

    /// Division following the element's native semantics, defined for
    /// every divisor, a zero divisor included.
    fn div_total(self, rhs: Self) -> (r: Self)
        ensures
            r == self.div_val(rhs),
    ;
}

} // verus!
