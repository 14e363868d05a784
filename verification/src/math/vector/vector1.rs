//! A one-dimensional vector with named fields.

use crate::math::vector::model::{
    add_ok, add_vals, div_ok, div_scalar_ok, div_scalar_vals, div_vals, dot_int, dot_ok, dot_val,
    ints, lemma_dot_int_take_step, lemma_dot_val_take_step, mul_ok, mul_vals, neg_ok, neg_vals,
    scale_ok, scale_vals, seq_add, seq_div, seq_div_scalar, seq_mul, seq_neg, seq_scale, seq_sub,
    sub_ok, sub_vals,
};
use crate::math::vector::traits::{trunc_div, FloatElement, VectorElement, VectorLike};
use crate::num::{One, Zero};
use vstd::prelude::*;

verus! {

/// A vector of one element, addressed as `x` or by the
/// index 0.
#[derive(Clone, Copy, Debug, Default, PartialEq)]
pub struct Vector1<T: VectorElement> {
    pub x: T,
}

impl<T: VectorElement> Vector1<T> {
    /// Creates the vector with the given components.
    pub fn new(x: T) -> (r: Self)
        ensures
            r.x == x,
    {
        Self { x }
    }

    /// The unit vector along the positive x axis.
    pub fn unit_x() -> (r: Self)
        ensures
            r.x == T::one_spec(),
    {
        Self { x: T::one() }
    }
}

impl<T: VectorElement> Zero for Vector1<T> {
    open spec fn zero_spec() -> Self {
        Vector1 { x: T::zero_spec() }
    }

    fn zero() -> (r: Self) {
        Vector1 { x: T::zero() }
    }

    fn is_zero(&self) -> (r: bool)
        ensures
            T::obeys_model() ==> r == (*self == Self::zero_spec()),
    {
        let zx = self.x.eq_val(T::zero());
        proof {
            T::lemma_element_model(self.x, T::zero_spec());
        }
        zx
    }
}

impl<T: VectorElement> One for Vector1<T> {
    open spec fn one_spec() -> Self {
        Vector1 { x: T::one_spec() }
    }

    fn one() -> (r: Self) {
        Vector1 { x: T::one() }
    }
}

impl<T: VectorElement> VectorLike<T, 1> for Vector1<T> {
    open spec fn vals(&self) -> Seq<T> {
        seq![self.x]
    }

    proof fn lemma_vals_len(&self) {
    }

    fn get(&self, index: usize) -> (r: T) {
        self.x
    }

    fn set(&mut self, index: usize, value: T) {
        self.x = value;
        proof {
            assert(self.vals() =~= old(self).vals().update(index as int, value));
        }
    }
}

impl<T: VectorElement> From<[T; 1]> for Vector1<T> {
    fn from(value: [T; 1]) -> (r: Self) {
        Vector1 { x: value[0] }
    }
}

impl<T: VectorElement> vstd::std_specs::convert::FromSpecImpl<[T; 1]> for Vector1<T> {
    open spec fn obeys_from_spec() -> bool {
        true
    }

    open spec fn from_spec(v: [T; 1]) -> Self {
        Vector1 { x: v@[0] }
    }
}

impl<T: VectorElement> From<(T,)> for Vector1<T> {
    fn from(value: (T,)) -> (r: Self) {
        Vector1 { x: value.0 }
    }
}

impl<T: VectorElement> vstd::std_specs::convert::FromSpecImpl<(T,)> for Vector1<T> {
    open spec fn obeys_from_spec() -> bool {
        true
    }

    open spec fn from_spec(v: (T,)) -> Self {
        Vector1 { x: v.0 }
    }
}

impl<T: VectorElement> From<crate::math::vector::array_wrapper::ArrayWrapper<T, 1>> for Vector1<T> {
    fn from(value: crate::math::vector::array_wrapper::ArrayWrapper<T, 1>) -> (r: Self) {
        Vector1 { x: value.get(0) }
    }
}

impl<T: VectorElement> vstd::std_specs::convert::FromSpecImpl<crate::math::vector::array_wrapper::ArrayWrapper<T, 1>> for Vector1<T> {
    open spec fn obeys_from_spec() -> bool {
        true
    }

    open spec fn from_spec(v: crate::math::vector::array_wrapper::ArrayWrapper<T, 1>) -> Self {
        Vector1 { x: v.elements@[0] }
    }
}

impl<T: VectorElement> Vector1<T> {
    /// Elementwise sum with anything vector-shaped.
    pub fn add<V: VectorLike<T, 1>>(self, rhs: V) -> (r: Self)
        requires
            add_ok::<T>(ints(self.vals()), ints(rhs.vals())),
            rhs.vals().len() == 1,
        ensures
            r.vals() == add_vals(self.vals(), rhs.vals()),
            ints(r.vals()) == seq_add(ints(self.vals()), ints(rhs.vals())),
    {
        let r0 = rhs.get(0);
        proof {
            assert(T::in_range(ints(self.vals())[0] + ints(rhs.vals())[0]));
        }
        let r = Self { x: self.x.add(r0) };
        proof {
            assert(r.vals() =~= add_vals(self.vals(), rhs.vals()));
            assert(ints(r.vals()) =~= seq_add(ints(self.vals()), ints(rhs.vals())));
        }
        r
    }

    /// Elementwise difference with anything vector-shaped.
    pub fn sub<V: VectorLike<T, 1>>(self, rhs: V) -> (r: Self)
        requires
            sub_ok::<T>(ints(self.vals()), ints(rhs.vals())),
            rhs.vals().len() == 1,
        ensures
            r.vals() == sub_vals(self.vals(), rhs.vals()),
            ints(r.vals()) == seq_sub(ints(self.vals()), ints(rhs.vals())),
    {
        let r0 = rhs.get(0);
        proof {
            assert(T::in_range(ints(self.vals())[0] - ints(rhs.vals())[0]));
        }
        let r = Self { x: self.x.sub(r0) };
        proof {
            assert(r.vals() =~= sub_vals(self.vals(), rhs.vals()));
            assert(ints(r.vals()) =~= seq_sub(ints(self.vals()), ints(rhs.vals())));
        }
        r
    }

    /// Elementwise product with anything vector-shaped.
    pub fn mul<V: VectorLike<T, 1>>(self, rhs: V) -> (r: Self)
        requires
            mul_ok::<T>(ints(self.vals()), ints(rhs.vals())),
            rhs.vals().len() == 1,
        ensures
            r.vals() == mul_vals(self.vals(), rhs.vals()),
            ints(r.vals()) == seq_mul(ints(self.vals()), ints(rhs.vals())),
    {
        let r0 = rhs.get(0);
        proof {
            assert(T::in_range(ints(self.vals())[0] * ints(rhs.vals())[0]));
        }
        let r = Self { x: self.x.mul(r0) };
        proof {
            assert(r.vals() =~= mul_vals(self.vals(), rhs.vals()));
            assert(ints(r.vals()) =~= seq_mul(ints(self.vals()), ints(rhs.vals())));
        }
        r
    }

    /// Elementwise quotient with anything vector-shaped, truncating on integer elements.
    pub fn div<V: VectorLike<T, 1>>(self, rhs: V) -> (r: Self)
        requires
            div_ok::<T>(ints(self.vals()), ints(rhs.vals())),
            rhs.vals().len() == 1,
        ensures
            r.vals() == div_vals(self.vals(), rhs.vals()),
            ints(r.vals()) == seq_div(ints(self.vals()), ints(rhs.vals())),
    {
        let r0 = rhs.get(0);
        proof {
            assert(T::in_range(trunc_div(ints(self.vals())[0], ints(rhs.vals())[0])));
        }
        let r = Self { x: self.x.div(r0) };
        proof {
            assert(r.vals() =~= div_vals(self.vals(), rhs.vals()));
            assert(ints(r.vals()) =~= seq_div(ints(self.vals()), ints(rhs.vals())));
        }
        r
    }

    /// Elementwise sum, assigned in place.
    pub fn add_assign<V: VectorLike<T, 1>>(&mut self, rhs: V)
        requires
            add_ok::<T>(ints(old(self).vals()), ints(rhs.vals())),
            rhs.vals().len() == 1,
        ensures
            final(self).vals() == add_vals(old(self).vals(), rhs.vals()),
            ints(final(self).vals()) == seq_add(ints(old(self).vals()), ints(rhs.vals())),
    {
        let v = *self;
        *self = v.add(rhs);
    }

    /// Elementwise difference, assigned in place.
    pub fn sub_assign<V: VectorLike<T, 1>>(&mut self, rhs: V)
        requires
            sub_ok::<T>(ints(old(self).vals()), ints(rhs.vals())),
            rhs.vals().len() == 1,
        ensures
            final(self).vals() == sub_vals(old(self).vals(), rhs.vals()),
            ints(final(self).vals()) == seq_sub(ints(old(self).vals()), ints(rhs.vals())),
    {
        let v = *self;
        *self = v.sub(rhs);
    }

    /// Elementwise product, assigned in place.
    pub fn mul_assign<V: VectorLike<T, 1>>(&mut self, rhs: V)
        requires
            mul_ok::<T>(ints(old(self).vals()), ints(rhs.vals())),
            rhs.vals().len() == 1,
        ensures
            final(self).vals() == mul_vals(old(self).vals(), rhs.vals()),
            ints(final(self).vals()) == seq_mul(ints(old(self).vals()), ints(rhs.vals())),
    {
        let v = *self;
        *self = v.mul(rhs);
    }

    /// Elementwise quotient, assigned in place.
    pub fn div_assign<V: VectorLike<T, 1>>(&mut self, rhs: V)
        requires
            div_ok::<T>(ints(old(self).vals()), ints(rhs.vals())),
            rhs.vals().len() == 1,
        ensures
            final(self).vals() == div_vals(old(self).vals(), rhs.vals()),
            ints(final(self).vals()) == seq_div(ints(old(self).vals()), ints(rhs.vals())),
    {
        let v = *self;
        *self = v.div(rhs);
    }

    /// Every element scaled by `scalar`.
    pub fn mul_scalar(self, scalar: T) -> (r: Self)
        requires
            scale_ok::<T>(ints(self.vals()), scalar.as_int()),
        ensures
            r.vals() == scale_vals(self.vals(), scalar),
            ints(r.vals()) == seq_scale(ints(self.vals()), scalar.as_int()),
    {
        proof {
            assert(T::in_range(ints(self.vals())[0] * scalar.as_int()));
        }
        let r = Self { x: self.x.mul(scalar) };
        proof {
            assert(r.vals() =~= scale_vals(self.vals(), scalar));
            assert(ints(r.vals()) =~= seq_scale(ints(self.vals()), scalar.as_int()));
        }
        r
    }

    /// Every element divided by `scalar`, truncating on integer
    /// elements.
    pub fn div_scalar(self, scalar: T) -> (r: Self)
        requires
            div_scalar_ok::<T>(ints(self.vals()), scalar.as_int()),
        ensures
            r.vals() == div_scalar_vals(self.vals(), scalar),
            ints(r.vals()) == seq_div_scalar(ints(self.vals()), scalar.as_int()),
    {
        proof {
            assert(T::in_range(trunc_div(ints(self.vals())[0], scalar.as_int())));
        }
        let r = Self { x: self.x.div(scalar) };
        proof {
            assert(r.vals() =~= div_scalar_vals(self.vals(), scalar));
            assert(ints(r.vals()) =~= seq_div_scalar(ints(self.vals()), scalar.as_int()));
        }
        r
    }

    /// Every element scaled by `scalar`, assigned in place.
    pub fn mul_scalar_assign(&mut self, scalar: T)
        requires
            scale_ok::<T>(ints(old(self).vals()), scalar.as_int()),
        ensures
            final(self).vals() == scale_vals(old(self).vals(), scalar),
            ints(final(self).vals()) == seq_scale(ints(old(self).vals()), scalar.as_int()),
    {
        let v = *self;
        *self = v.mul_scalar(scalar);
    }

    /// Every element divided by `scalar`, assigned in place.
    pub fn div_scalar_assign(&mut self, scalar: T)
        requires
            div_scalar_ok::<T>(ints(old(self).vals()), scalar.as_int()),
        ensures
            final(self).vals() == div_scalar_vals(old(self).vals(), scalar),
            ints(final(self).vals()) == seq_div_scalar(ints(old(self).vals()), scalar.as_int()),
    {
        let v = *self;
        *self = v.div_scalar(scalar);
    }

    /// Elementwise negation.
    pub fn neg(self) -> (r: Self)
        requires
            neg_ok::<T>(ints(self.vals())),
        ensures
            r.vals() == neg_vals(self.vals()),
            ints(r.vals()) == seq_neg(ints(self.vals())),
    {
        proof {
            assert(T::in_range(-ints(self.vals())[0]));
        }
        let r = Self { x: self.x.neg() };
        proof {
            assert(r.vals() =~= neg_vals(self.vals()));
            assert(ints(r.vals()) =~= seq_neg(ints(self.vals())));
        }
        r
    }

    /// The sum of the squares of the elements. Exactly the dot product
    /// of the vector with itself.
    pub fn length_squared(&self) -> (r: T)
        requires
            dot_ok::<T>(ints(self.vals()), ints(self.vals())),
        ensures
            r == dot_val(self.vals(), self.vals()),
            r.as_int() == dot_int(ints(self.vals()), ints(self.vals())),
    {
        let v = *self;
        v.dot(v)
    }

    /// The dot product with anything vector-shaped.
    pub fn dot<V: VectorLike<T, 1>>(&self, rhs: V) -> (r: T)
        requires
            dot_ok::<T>(ints(self.vals()), ints(rhs.vals())),
            rhs.vals().len() == 1,
        ensures
            r == dot_val(self.vals(), rhs.vals()),
            r.as_int() == dot_int(ints(self.vals()), ints(rhs.vals())),
    {
        let ghost a = self.vals();
        let ghost b = rhs.vals();
        let mut result = T::zero();
        proof {
            assert(a.take(0) =~= Seq::<T>::empty());
            assert(b.take(0) =~= Seq::<T>::empty());
            assert(ints(a).take(0) =~= Seq::<int>::empty());
            assert(ints(b).take(0) =~= Seq::<int>::empty());
            assert(T::in_range(dot_int(ints(a).take(0), ints(b).take(0))));
            T::lemma_element_model(result, result);
        }
        let r0 = rhs.get(0);
        proof {
            lemma_dot_val_take_step(a, b, 0);
            lemma_dot_int_take_step(ints(a), ints(b), 0);
            assert(T::in_range(ints(a)[0] * ints(b)[0]));
            assert(T::in_range(dot_int(ints(a).take(1), ints(b).take(1))));
        }
        result = result.add(self.x.mul(r0));
        proof {
            assert(a.take(1) =~= a);
            assert(b.take(1) =~= b);
            assert(ints(a).take(1) =~= ints(a));
            assert(ints(b).take(1) =~= ints(b));
        }
        result
    }
}

impl<T: FloatElement> Vector1<T> {
    /// The length: the square root of the sum of the squared elements.
    pub fn length(&self) -> (r: T)
        ensures
            r == dot_val(self.vals(), self.vals()).sqrt_val(),
    {
        proof {
            T::lemma_total();
        }
        self.length_squared().sqrt()
    }

    /// The vector scaled to length one; the zero vector stays the zero
    /// vector.
    pub fn normalized(&self) -> (r: Self)
        ensures
            r == Self::zero_spec() || r.vals() == div_scalar_vals(
                self.vals(),
                dot_val(self.vals(), self.vals()).sqrt_val(),
            ),
            T::obeys_model() ==> (dot_val(self.vals(), self.vals()).sqrt_val().as_int() == 0
                ==> r == Self::zero_spec()),
            T::obeys_model() ==> (dot_val(self.vals(), self.vals()).sqrt_val().as_int() != 0
                ==> r.vals() == div_scalar_vals(
                self.vals(),
                dot_val(self.vals(), self.vals()).sqrt_val(),
            )),
    {
        proof {
            T::lemma_total();
        }
        let len = self.length();
        if !len.eq_val(T::zero()) {
            proof {
                T::lemma_element_model(T::zero_spec(), T::zero_spec());
            }
            let r = Self { x: self.x.div_total(len) };
            proof {
                assert(r.vals() =~= div_scalar_vals(self.vals(), len));
            }
            r
        } else {
            proof {
                T::lemma_element_model(T::zero_spec(), T::zero_spec());
            }
            Self::zero()
        }
    }

    /// Scales the vector to length one in place; the zero vector stays
    /// the zero vector.
    pub fn normalize(&mut self)
        ensures
            *final(self) == Self::zero_spec() || final(self).vals() == div_scalar_vals(
                old(self).vals(),
                dot_val(old(self).vals(), old(self).vals()).sqrt_val(),
            ),
            T::obeys_model() ==> (dot_val(old(self).vals(), old(self).vals()).sqrt_val().as_int()
                == 0 ==> *final(self) == Self::zero_spec()),
            T::obeys_model() ==> (dot_val(old(self).vals(), old(self).vals()).sqrt_val().as_int()
                != 0 ==> final(self).vals() == div_scalar_vals(
                old(self).vals(),
                dot_val(old(self).vals(), old(self).vals()).sqrt_val(),
            )),
    {
        let v = *self;
        *self = v.normalized();
    }

    /// The distance to `rhs`: the length of the difference.
    pub fn distance(&self, rhs: Self) -> (r: T)
        ensures
            r == dot_val(sub_vals(self.vals(), rhs.vals()), sub_vals(self.vals(), rhs.vals()))
                .sqrt_val(),
    {
        proof {
            T::lemma_total();
        }
        let v = *self;
        let diff = v.sub(rhs);
        diff.length()
    }
}


impl<T: VectorElement> core::ops::Add<Vector1<T>> for Vector1<T> {
    type Output = Vector1<T>;

    /// The operator form of [`Vector1::add`].
    fn add(self, rhs: Vector1<T>) -> (r: Vector1<T>) {
        proof {
            assert(T::in_range(ints(self.vals())[0] + ints(rhs.vals())[0]));
        }
        Vector1 { x: self.x.add(rhs.x) }
    }
}

impl<T: VectorElement> vstd::std_specs::ops::AddSpecImpl<Vector1<T>> for Vector1<T> {
    open spec fn obeys_add_spec() -> bool {
        true
    }

    open spec fn add_req(self, rhs: Vector1<T>) -> bool {
        add_ok::<T>(ints(self.vals()), ints(rhs.vals()))
    }

    open spec fn add_spec(self, rhs: Vector1<T>) -> Vector1<T> {
        Vector1 { x: self.x.add_val(rhs.x) }
    }
}

impl<T: VectorElement> core::ops::Sub<Vector1<T>> for Vector1<T> {
    type Output = Vector1<T>;

    /// The operator form of [`Vector1::sub`].
    fn sub(self, rhs: Vector1<T>) -> (r: Vector1<T>) {
        proof {
            assert(T::in_range(ints(self.vals())[0] - ints(rhs.vals())[0]));
        }
        Vector1 { x: self.x.sub(rhs.x) }
    }
}

impl<T: VectorElement> vstd::std_specs::ops::SubSpecImpl<Vector1<T>> for Vector1<T> {
    open spec fn obeys_sub_spec() -> bool {
        true
    }

    open spec fn sub_req(self, rhs: Vector1<T>) -> bool {
        sub_ok::<T>(ints(self.vals()), ints(rhs.vals()))
    }

    open spec fn sub_spec(self, rhs: Vector1<T>) -> Vector1<T> {
        Vector1 { x: self.x.sub_val(rhs.x) }
    }
}

impl<T: VectorElement> core::ops::Mul<Vector1<T>> for Vector1<T> {
    type Output = Vector1<T>;

    /// The operator form of [`Vector1::mul`].
    fn mul(self, rhs: Vector1<T>) -> (r: Vector1<T>) {
        proof {
            assert(T::in_range(ints(self.vals())[0] * ints(rhs.vals())[0]));
        }
        Vector1 { x: self.x.mul(rhs.x) }
    }
}

impl<T: VectorElement> vstd::std_specs::ops::MulSpecImpl<Vector1<T>> for Vector1<T> {
    open spec fn obeys_mul_spec() -> bool {
        true
    }

    open spec fn mul_req(self, rhs: Vector1<T>) -> bool {
        mul_ok::<T>(ints(self.vals()), ints(rhs.vals()))
    }

    open spec fn mul_spec(self, rhs: Vector1<T>) -> Vector1<T> {
        Vector1 { x: self.x.mul_val(rhs.x) }
    }
}

impl<T: VectorElement> core::ops::Div<Vector1<T>> for Vector1<T> {
    type Output = Vector1<T>;

    /// The operator form of [`Vector1::div`].
    fn div(self, rhs: Vector1<T>) -> (r: Vector1<T>) {
        proof {
            assert(T::in_range(trunc_div(ints(self.vals())[0], ints(rhs.vals())[0])));
        }
        Vector1 { x: self.x.div(rhs.x) }
    }
}

impl<T: VectorElement> vstd::std_specs::ops::DivSpecImpl<Vector1<T>> for Vector1<T> {
    open spec fn obeys_div_spec() -> bool {
        true
    }

    open spec fn div_req(self, rhs: Vector1<T>) -> bool {
        div_ok::<T>(ints(self.vals()), ints(rhs.vals()))
    }

    open spec fn div_spec(self, rhs: Vector1<T>) -> Vector1<T> {
        Vector1 { x: self.x.div_val(rhs.x) }
    }
}

impl<T: VectorElement> core::ops::Mul<T> for Vector1<T> {
    type Output = Vector1<T>;

    /// The operator form of [`Vector1::mul_scalar`].
    fn mul(self, scalar: T) -> (r: Vector1<T>) {
        proof {
            assert(T::in_range(ints(self.vals())[0] * scalar.as_int()));
        }
        Vector1 { x: self.x.mul(scalar) }
    }
}

impl<T: VectorElement> vstd::std_specs::ops::MulSpecImpl<T> for Vector1<T> {
    open spec fn obeys_mul_spec() -> bool {
        true
    }

    open spec fn mul_req(self, scalar: T) -> bool {
        scale_ok::<T>(ints(self.vals()), scalar.as_int())
    }

    open spec fn mul_spec(self, scalar: T) -> Vector1<T> {
        Vector1 { x: self.x.mul_val(scalar) }
    }
}

impl<T: VectorElement> core::ops::Div<T> for Vector1<T> {
    type Output = Vector1<T>;

    /// The operator form of [`Vector1::div_scalar`].
    fn div(self, scalar: T) -> (r: Vector1<T>) {
        proof {
            assert(T::in_range(trunc_div(ints(self.vals())[0], scalar.as_int())));
        }
        Vector1 { x: self.x.div(scalar) }
    }
}

impl<T: VectorElement> vstd::std_specs::ops::DivSpecImpl<T> for Vector1<T> {
    open spec fn obeys_div_spec() -> bool {
        true
    }

    open spec fn div_req(self, scalar: T) -> bool {
        div_scalar_ok::<T>(ints(self.vals()), scalar.as_int())
    }

    open spec fn div_spec(self, scalar: T) -> Vector1<T> {
        Vector1 { x: self.x.div_val(scalar) }
    }
}

impl<T: VectorElement> core::ops::Neg for Vector1<T> {
    type Output = Vector1<T>;

    /// The operator form of [`Vector1::neg`].
    fn neg(self) -> (r: Vector1<T>) {
        proof {
            assert(T::in_range(-ints(self.vals())[0]));
        }
        Vector1 { x: self.x.neg() }
    }
}

impl<T: VectorElement> vstd::std_specs::ops::NegSpecImpl for Vector1<T> {
    open spec fn obeys_neg_spec() -> bool {
        true
    }

    open spec fn neg_req(self) -> bool {
        neg_ok::<T>(ints(self.vals()))
    }

    open spec fn neg_spec(self) -> Vector1<T> {
        Vector1 { x: self.x.neg_val() }
    }
}

} // verus!
