//! A four-dimensional vector with named fields.

use crate::math::vector::model::{
    add_ok, add_vals, div_ok, div_scalar_ok, div_scalar_vals, div_vals, dot_int, dot_ok, dot_val,
    ints, lemma_dot_int_take_step, lemma_dot_val_take_step, mul_ok, mul_vals, neg_ok, neg_vals,
    scale_ok, scale_vals, seq_add, seq_div, seq_div_scalar, seq_mul, seq_neg, seq_scale, seq_sub,
    sub_ok, sub_vals,
};
use crate::math::vector::traits::{trunc_div, FloatElement, VectorElement, VectorLike};
use crate::num::{One, Zero};
use vstd::prelude::*;

verus! {

/// A vector of four elements, addressed as `x`, `y`, `z`, `w` or by the
/// indices 0, 1, 2 and 3.
#[derive(Clone, Copy, Debug, Default, PartialEq)]
pub struct Vector4<T: VectorElement> {
    pub x: T,
    pub y: T,
    pub z: T,
    pub w: T,
}

impl<T: VectorElement> Vector4<T> {
    /// Creates the vector with the given components.
    pub fn new(x: T, y: T, z: T, w: T) -> (r: Self)
        ensures
            r.x == x,
            r.y == y,
            r.z == z,
            r.w == w,
    {
        Self { x, y, z, w }
    }

    /// The unit vector along the positive x axis.
    pub fn unit_x() -> (r: Self)
        ensures
            r.x == T::one_spec(),
            r.y == T::zero_spec(),
            r.z == T::zero_spec(),
            r.w == T::zero_spec(),
    {
        Self { x: T::one(), y: T::zero(), z: T::zero(), w: T::zero() }
    }

    /// The unit vector along the positive y axis.
    pub fn unit_y() -> (r: Self)
        ensures
            r.x == T::zero_spec(),
            r.y == T::one_spec(),
            r.z == T::zero_spec(),
            r.w == T::zero_spec(),
    {
        Self { x: T::zero(), y: T::one(), z: T::zero(), w: T::zero() }
    }

    /// The unit vector along the positive z axis.
    pub fn unit_z() -> (r: Self)
        ensures
            r.x == T::zero_spec(),
            r.y == T::zero_spec(),
            r.z == T::one_spec(),
            r.w == T::zero_spec(),
    {
        Self { x: T::zero(), y: T::zero(), z: T::one(), w: T::zero() }
    }

    /// The unit vector along the positive w axis.
    pub fn unit_w() -> (r: Self)
        ensures
            r.x == T::zero_spec(),
            r.y == T::zero_spec(),
            r.z == T::zero_spec(),
            r.w == T::one_spec(),
    {
        Self { x: T::zero(), y: T::zero(), z: T::zero(), w: T::one() }
    }
}

impl<T: VectorElement> Vector4<T> {
    /// Creates the vector from a one-dimensional vector and the
    /// remaining components.
    pub fn from_v1_with_yzw<V: VectorLike<T, 1>>(v: V, y: T, z: T, w: T) -> (r: Self)
        requires
            v.vals().len() == 1,
        ensures
            r.x == v.vals()[0],
            r.y == y,
            r.z == z,
            r.w == w,
    {
        Self { x: v.get(0), y, z, w }
    }

    /// Creates the vector from a two-dimensional vector and the
    /// remaining components.
    pub fn from_v2_with_zw<V: VectorLike<T, 2>>(v: V, z: T, w: T) -> (r: Self)
        requires
            v.vals().len() == 2,
        ensures
            r.x == v.vals()[0],
            r.y == v.vals()[1],
            r.z == z,
            r.w == w,
    {
        Self { x: v.get(0), y: v.get(1), z, w }
    }

    /// Creates the vector from a three-dimensional vector and the
    /// remaining component.
    pub fn from_v3_with_w<V: VectorLike<T, 3>>(v: V, w: T) -> (r: Self)
        requires
            v.vals().len() == 3,
        ensures
            r.x == v.vals()[0],
            r.y == v.vals()[1],
            r.z == v.vals()[2],
            r.w == w,
    {
        Self { x: v.get(0), y: v.get(1), z: v.get(2), w }
    }
}

impl<T: VectorElement> Zero for Vector4<T> {
    open spec fn zero_spec() -> Self {
        Vector4 { x: T::zero_spec(), y: T::zero_spec(), z: T::zero_spec(), w: T::zero_spec() }
    }

    fn zero() -> (r: Self) {
        Vector4 { x: T::zero(), y: T::zero(), z: T::zero(), w: T::zero() }
    }

    fn is_zero(&self) -> (r: bool)
        ensures
            T::obeys_model() ==> r == (*self == Self::zero_spec()),
    {
        let zx = self.x.eq_val(T::zero());
        let zy = self.y.eq_val(T::zero());
        let zz = self.z.eq_val(T::zero());
        let zw = self.w.eq_val(T::zero());
        proof {
            T::lemma_element_model(self.x, T::zero_spec());
            T::lemma_element_model(self.y, T::zero_spec());
            T::lemma_element_model(self.z, T::zero_spec());
            T::lemma_element_model(self.w, T::zero_spec());
        }
        zx && zy && zz && zw
    }
}

impl<T: VectorElement> One for Vector4<T> {
    open spec fn one_spec() -> Self {
        Vector4 { x: T::one_spec(), y: T::one_spec(), z: T::one_spec(), w: T::one_spec() }
    }

    fn one() -> (r: Self) {
        Vector4 { x: T::one(), y: T::one(), z: T::one(), w: T::one() }
    }
}

impl<T: VectorElement> VectorLike<T, 4> for Vector4<T> {
    open spec fn vals(&self) -> Seq<T> {
        seq![self.x, self.y, self.z, self.w]
    }

    proof fn lemma_vals_len(&self) {
    }

    fn get(&self, index: usize) -> (r: T) {
        if index == 0 {
            self.x
        } else if index == 1 {
            self.y
        } else if index == 2 {
            self.z
        } else {
            self.w
        }
    }

    fn set(&mut self, index: usize, value: T) {
        if index == 0 {
            self.x = value;
        } else if index == 1 {
            self.y = value;
        } else if index == 2 {
            self.z = value;
        } else {
            self.w = value;
        }
        proof {
            assert(self.vals() =~= old(self).vals().update(index as int, value));
        }
    }
}

impl<T: VectorElement> From<[T; 4]> for Vector4<T> {
    fn from(value: [T; 4]) -> (r: Self) {
        Vector4 { x: value[0], y: value[1], z: value[2], w: value[3] }
    }
}

impl<T: VectorElement> vstd::std_specs::convert::FromSpecImpl<[T; 4]> for Vector4<T> {
    open spec fn obeys_from_spec() -> bool {
        true
    }

    open spec fn from_spec(v: [T; 4]) -> Self {
        Vector4 { x: v@[0], y: v@[1], z: v@[2], w: v@[3] }
    }
}

impl<T: VectorElement> From<(T, T, T, T)> for Vector4<T> {
    fn from(value: (T, T, T, T)) -> (r: Self) {
        Vector4 { x: value.0, y: value.1, z: value.2, w: value.3 }
    }
}

impl<T: VectorElement> vstd::std_specs::convert::FromSpecImpl<(T, T, T, T)> for Vector4<T> {
    open spec fn obeys_from_spec() -> bool {
        true
    }

    open spec fn from_spec(v: (T, T, T, T)) -> Self {
        Vector4 { x: v.0, y: v.1, z: v.2, w: v.3 }
    }
}

impl<T: VectorElement> Vector4<T> {
    /// Elementwise sum with anything vector-shaped.
    pub fn add<V: VectorLike<T, 4>>(self, rhs: V) -> (r: Self)
        requires
            add_ok::<T>(ints(self.vals()), ints(rhs.vals())),
            rhs.vals().len() == 4,
        ensures
            r.vals() == add_vals(self.vals(), rhs.vals()),
            ints(r.vals()) == seq_add(ints(self.vals()), ints(rhs.vals())),
    {
        let r0 = rhs.get(0);
        let r1 = rhs.get(1);
        let r2 = rhs.get(2);
        let r3 = rhs.get(3);
        proof {
            assert(T::in_range(ints(self.vals())[0] + ints(rhs.vals())[0]));
            assert(T::in_range(ints(self.vals())[1] + ints(rhs.vals())[1]));
            assert(T::in_range(ints(self.vals())[2] + ints(rhs.vals())[2]));
            assert(T::in_range(ints(self.vals())[3] + ints(rhs.vals())[3]));
        }
        let r = Self { x: self.x.add(r0), y: self.y.add(r1), z: self.z.add(r2), w: self.w.add(r3) };
        proof {
            assert(r.vals() =~= add_vals(self.vals(), rhs.vals()));
            assert(ints(r.vals()) =~= seq_add(ints(self.vals()), ints(rhs.vals())));
        }
        r
    }

    /// Elementwise difference with anything vector-shaped.
    pub fn sub<V: VectorLike<T, 4>>(self, rhs: V) -> (r: Self)
        requires
            sub_ok::<T>(ints(self.vals()), ints(rhs.vals())),
            rhs.vals().len() == 4,
        ensures
            r.vals() == sub_vals(self.vals(), rhs.vals()),
            ints(r.vals()) == seq_sub(ints(self.vals()), ints(rhs.vals())),
    {
        let r0 = rhs.get(0);
        let r1 = rhs.get(1);
        let r2 = rhs.get(2);
        let r3 = rhs.get(3);
        proof {
            assert(T::in_range(ints(self.vals())[0] - ints(rhs.vals())[0]));
            assert(T::in_range(ints(self.vals())[1] - ints(rhs.vals())[1]));
            assert(T::in_range(ints(self.vals())[2] - ints(rhs.vals())[2]));
            assert(T::in_range(ints(self.vals())[3] - ints(rhs.vals())[3]));
        }
        let r = Self { x: self.x.sub(r0), y: self.y.sub(r1), z: self.z.sub(r2), w: self.w.sub(r3) };
        proof {
            assert(r.vals() =~= sub_vals(self.vals(), rhs.vals()));
            assert(ints(r.vals()) =~= seq_sub(ints(self.vals()), ints(rhs.vals())));
        }
        r
    }

    /// Elementwise product with anything vector-shaped.
    pub fn mul<V: VectorLike<T, 4>>(self, rhs: V) -> (r: Self)
        requires
            mul_ok::<T>(ints(self.vals()), ints(rhs.vals())),
            rhs.vals().len() == 4,
        ensures
            r.vals() == mul_vals(self.vals(), rhs.vals()),
            ints(r.vals()) == seq_mul(ints(self.vals()), ints(rhs.vals())),
    {
        let r0 = rhs.get(0);
        let r1 = rhs.get(1);
        let r2 = rhs.get(2);
        let r3 = rhs.get(3);
        proof {
            assert(T::in_range(ints(self.vals())[0] * ints(rhs.vals())[0]));
            assert(T::in_range(ints(self.vals())[1] * ints(rhs.vals())[1]));
            assert(T::in_range(ints(self.vals())[2] * ints(rhs.vals())[2]));
            assert(T::in_range(ints(self.vals())[3] * ints(rhs.vals())[3]));
        }
        let r = Self { x: self.x.mul(r0), y: self.y.mul(r1), z: self.z.mul(r2), w: self.w.mul(r3) };
        proof {
            assert(r.vals() =~= mul_vals(self.vals(), rhs.vals()));
            assert(ints(r.vals()) =~= seq_mul(ints(self.vals()), ints(rhs.vals())));
        }
        r
    }

    /// Elementwise quotient with anything vector-shaped, truncating on integer elements.
    pub fn div<V: VectorLike<T, 4>>(self, rhs: V) -> (r: Self)
        requires
            div_ok::<T>(ints(self.vals()), ints(rhs.vals())),
            rhs.vals().len() == 4,
        ensures
            r.vals() == div_vals(self.vals(), rhs.vals()),
            ints(r.vals()) == seq_div(ints(self.vals()), ints(rhs.vals())),
    {
        let r0 = rhs.get(0);
        let r1 = rhs.get(1);
        let r2 = rhs.get(2);
        let r3 = rhs.get(3);
        proof {
            assert(T::in_range(trunc_div(ints(self.vals())[0], ints(rhs.vals())[0])));
            assert(T::in_range(trunc_div(ints(self.vals())[1], ints(rhs.vals())[1])));
            assert(T::in_range(trunc_div(ints(self.vals())[2], ints(rhs.vals())[2])));
            assert(T::in_range(trunc_div(ints(self.vals())[3], ints(rhs.vals())[3])));
        }
        let r = Self { x: self.x.div(r0), y: self.y.div(r1), z: self.z.div(r2), w: self.w.div(r3) };
        proof {
            assert(r.vals() =~= div_vals(self.vals(), rhs.vals()));
            assert(ints(r.vals()) =~= seq_div(ints(self.vals()), ints(rhs.vals())));
        }
        r
    }

    /// Elementwise sum, assigned in place.
    pub fn add_assign<V: VectorLike<T, 4>>(&mut self, rhs: V)
        requires
            add_ok::<T>(ints(old(self).vals()), ints(rhs.vals())),
            rhs.vals().len() == 4,
        ensures
            final(self).vals() == add_vals(old(self).vals(), rhs.vals()),
            ints(final(self).vals()) == seq_add(ints(old(self).vals()), ints(rhs.vals())),
    {
        let v = *self;
        *self = v.add(rhs);
    }

    /// Elementwise difference, assigned in place.
    pub fn sub_assign<V: VectorLike<T, 4>>(&mut self, rhs: V)
        requires
            sub_ok::<T>(ints(old(self).vals()), ints(rhs.vals())),
            rhs.vals().len() == 4,
        ensures
            final(self).vals() == sub_vals(old(self).vals(), rhs.vals()),
            ints(final(self).vals()) == seq_sub(ints(old(self).vals()), ints(rhs.vals())),
    {
        let v = *self;
        *self = v.sub(rhs);
    }

    /// Elementwise product, assigned in place.
    pub fn mul_assign<V: VectorLike<T, 4>>(&mut self, rhs: V)
        requires
            mul_ok::<T>(ints(old(self).vals()), ints(rhs.vals())),
            rhs.vals().len() == 4,
        ensures
            final(self).vals() == mul_vals(old(self).vals(), rhs.vals()),
            ints(final(self).vals()) == seq_mul(ints(old(self).vals()), ints(rhs.vals())),
    {
        let v = *self;
        *self = v.mul(rhs);
    }

    /// Elementwise quotient, assigned in place.
    pub fn div_assign<V: VectorLike<T, 4>>(&mut self, rhs: V)
        requires
            div_ok::<T>(ints(old(self).vals()), ints(rhs.vals())),
            rhs.vals().len() == 4,
        ensures
            final(self).vals() == div_vals(old(self).vals(), rhs.vals()),
            ints(final(self).vals()) == seq_div(ints(old(self).vals()), ints(rhs.vals())),
    {
        let v = *self;
        *self = v.div(rhs);
    }

    /// Every element scaled by `scalar`.
    pub fn mul_scalar(self, scalar: T) -> (r: Self)
        requires
            scale_ok::<T>(ints(self.vals()), scalar.as_int()),
        ensures
            r.vals() == scale_vals(self.vals(), scalar),
            ints(r.vals()) == seq_scale(ints(self.vals()), scalar.as_int()),
    {
        proof {
            assert(T::in_range(ints(self.vals())[0] * scalar.as_int()));
            assert(T::in_range(ints(self.vals())[1] * scalar.as_int()));
            assert(T::in_range(ints(self.vals())[2] * scalar.as_int()));
            assert(T::in_range(ints(self.vals())[3] * scalar.as_int()));
        }
        let r = Self { x: self.x.mul(scalar), y: self.y.mul(scalar), z: self.z.mul(scalar), w: self.w.mul(scalar) };
        proof {
            assert(r.vals() =~= scale_vals(self.vals(), scalar));
            assert(ints(r.vals()) =~= seq_scale(ints(self.vals()), scalar.as_int()));
        }
        r
    }

    /// Every element divided by `scalar`, truncating on integer
    /// elements.
    pub fn div_scalar(self, scalar: T) -> (r: Self)
        requires
            div_scalar_ok::<T>(ints(self.vals()), scalar.as_int()),
        ensures
            r.vals() == div_scalar_vals(self.vals(), scalar),
            ints(r.vals()) == seq_div_scalar(ints(self.vals()), scalar.as_int()),
    {
        proof {
            assert(T::in_range(trunc_div(ints(self.vals())[0], scalar.as_int())));
            assert(T::in_range(trunc_div(ints(self.vals())[1], scalar.as_int())));
            assert(T::in_range(trunc_div(ints(self.vals())[2], scalar.as_int())));
            assert(T::in_range(trunc_div(ints(self.vals())[3], scalar.as_int())));
        }
        let r = Self { x: self.x.div(scalar), y: self.y.div(scalar), z: self.z.div(scalar), w: self.w.div(scalar) };
        proof {
            assert(r.vals() =~= div_scalar_vals(self.vals(), scalar));
            assert(ints(r.vals()) =~= seq_div_scalar(ints(self.vals()), scalar.as_int()));
        }
        r
    }

    /// Every element scaled by `scalar`, assigned in place.
    pub fn mul_scalar_assign(&mut self, scalar: T)
        requires
            scale_ok::<T>(ints(old(self).vals()), scalar.as_int()),
        ensures
            final(self).vals() == scale_vals(old(self).vals(), scalar),
            ints(final(self).vals()) == seq_scale(ints(old(self).vals()), scalar.as_int()),
    {
        let v = *self;
        *self = v.mul_scalar(scalar);
    }

    /// Every element divided by `scalar`, assigned in place.
    pub fn div_scalar_assign(&mut self, scalar: T)
        requires
            div_scalar_ok::<T>(ints(old(self).vals()), scalar.as_int()),
        ensures
            final(self).vals() == div_scalar_vals(old(self).vals(), scalar),
            ints(final(self).vals()) == seq_div_scalar(ints(old(self).vals()), scalar.as_int()),
    {
        let v = *self;
        *self = v.div_scalar(scalar);
    }

    /// Elementwise negation.
    pub fn neg(self) -> (r: Self)
        requires
            neg_ok::<T>(ints(self.vals())),
        ensures
            r.vals() == neg_vals(self.vals()),
            ints(r.vals()) == seq_neg(ints(self.vals())),
    {
        proof {
            assert(T::in_range(-ints(self.vals())[0]));
            assert(T::in_range(-ints(self.vals())[1]));
            assert(T::in_range(-ints(self.vals())[2]));
            assert(T::in_range(-ints(self.vals())[3]));
        }
        let r = Self { x: self.x.neg(), y: self.y.neg(), z: self.z.neg(), w: self.w.neg() };
        proof {
            assert(r.vals() =~= neg_vals(self.vals()));
            assert(ints(r.vals()) =~= seq_neg(ints(self.vals())));
        }
        r
    }

    /// The sum of the squares of the elements. Exactly the dot product
    /// of the vector with itself.
    pub fn length_squared(&self) -> (r: T)
        requires
            dot_ok::<T>(ints(self.vals()), ints(self.vals())),
        ensures
            r == dot_val(self.vals(), self.vals()),
            r.as_int() == dot_int(ints(self.vals()), ints(self.vals())),
    {
        let v = *self;
        v.dot(v)
    }

    /// The dot product with anything vector-shaped.
    pub fn dot<V: VectorLike<T, 4>>(&self, rhs: V) -> (r: T)
        requires
            dot_ok::<T>(ints(self.vals()), ints(rhs.vals())),
            rhs.vals().len() == 4,
        ensures
            r == dot_val(self.vals(), rhs.vals()),
            r.as_int() == dot_int(ints(self.vals()), ints(rhs.vals())),
    {
        let ghost a = self.vals();
        let ghost b = rhs.vals();
        let mut result = T::zero();
        proof {
            assert(a.take(0) =~= Seq::<T>::empty());
            assert(b.take(0) =~= Seq::<T>::empty());
            assert(ints(a).take(0) =~= Seq::<int>::empty());
            assert(ints(b).take(0) =~= Seq::<int>::empty());
            assert(T::in_range(dot_int(ints(a).take(0), ints(b).take(0))));
            T::lemma_element_model(result, result);
        }
        let r0 = rhs.get(0);
        proof {
            lemma_dot_val_take_step(a, b, 0);
            lemma_dot_int_take_step(ints(a), ints(b), 0);
            assert(T::in_range(ints(a)[0] * ints(b)[0]));
            assert(T::in_range(dot_int(ints(a).take(1), ints(b).take(1))));
        }
        result = result.add(self.x.mul(r0));
        let r1 = rhs.get(1);
        proof {
            lemma_dot_val_take_step(a, b, 1);
            lemma_dot_int_take_step(ints(a), ints(b), 1);
            assert(T::in_range(ints(a)[1] * ints(b)[1]));
            assert(T::in_range(dot_int(ints(a).take(2), ints(b).take(2))));
        }
        result = result.add(self.y.mul(r1));
        let r2 = rhs.get(2);
        proof {
            lemma_dot_val_take_step(a, b, 2);
            lemma_dot_int_take_step(ints(a), ints(b), 2);
            assert(T::in_range(ints(a)[2] * ints(b)[2]));
            assert(T::in_range(dot_int(ints(a).take(3), ints(b).take(3))));
        }
        result = result.add(self.z.mul(r2));
        let r3 = rhs.get(3);
        proof {
            lemma_dot_val_take_step(a, b, 3);
            lemma_dot_int_take_step(ints(a), ints(b), 3);
            assert(T::in_range(ints(a)[3] * ints(b)[3]));
            assert(T::in_range(dot_int(ints(a).take(4), ints(b).take(4))));
        }
        result = result.add(self.w.mul(r3));
        proof {
            assert(a.take(4) =~= a);
            assert(b.take(4) =~= b);
            assert(ints(a).take(4) =~= ints(a));
            assert(ints(b).take(4) =~= ints(b));
        }
        result
    }
}

impl<T: FloatElement> Vector4<T> {
    /// The length: the square root of the sum of the squared elements.
    pub fn length(&self) -> (r: T)
        ensures
            r == dot_val(self.vals(), self.vals()).sqrt_val(),
    {
        proof {
            T::lemma_total();
        }
        self.length_squared().sqrt()
    }

    /// The vector scaled to length one; the zero vector stays the zero
    /// vector.
    pub fn normalized(&self) -> (r: Self)
        ensures
            r == Self::zero_spec() || r.vals() == div_scalar_vals(
                self.vals(),
                dot_val(self.vals(), self.vals()).sqrt_val(),
            ),
            T::obeys_model() ==> (dot_val(self.vals(), self.vals()).sqrt_val().as_int() == 0
                ==> r == Self::zero_spec()),
            T::obeys_model() ==> (dot_val(self.vals(), self.vals()).sqrt_val().as_int() != 0
                ==> r.vals() == div_scalar_vals(
                self.vals(),
                dot_val(self.vals(), self.vals()).sqrt_val(),
            )),
    {
        proof {
            T::lemma_total();
        }
        let len = self.length();
        if !len.eq_val(T::zero()) {
            proof {
                T::lemma_element_model(T::zero_spec(), T::zero_spec());
            }
            let r = Self { x: self.x.div_total(len), y: self.y.div_total(len), z: self.z.div_total(len), w: self.w.div_total(len) };
            proof {
                assert(r.vals() =~= div_scalar_vals(self.vals(), len));
            }
            r
        } else {
            proof {
                T::lemma_element_model(T::zero_spec(), T::zero_spec());
            }
            Self::zero()
        }
    }

    /// Scales the vector to length one in place; the zero vector stays
    /// the zero vector.
    pub fn normalize(&mut self)
        ensures
            *final(self) == Self::zero_spec() || final(self).vals() == div_scalar_vals(
                old(self).vals(),
                dot_val(old(self).vals(), old(self).vals()).sqrt_val(),
            ),
            T::obeys_model() ==> (dot_val(old(self).vals(), old(self).vals()).sqrt_val().as_int()
                == 0 ==> *final(self) == Self::zero_spec()),
            T::obeys_model() ==> (dot_val(old(self).vals(), old(self).vals()).sqrt_val().as_int()
                != 0 ==> final(self).vals() == div_scalar_vals(
                old(self).vals(),
                dot_val(old(self).vals(), old(self).vals()).sqrt_val(),
            )),
    {
        let v = *self;
        *self = v.normalized();
    }

    /// The distance to `rhs`: the length of the difference.
    pub fn distance(&self, rhs: Self) -> (r: T)
        ensures
            r == dot_val(sub_vals(self.vals(), rhs.vals()), sub_vals(self.vals(), rhs.vals()))
                .sqrt_val(),
    {
        proof {
            T::lemma_total();
        }
        let v = *self;
        let diff = v.sub(rhs);
        diff.length()
    }
}


impl<T: VectorElement> core::ops::Add<Vector4<T>> for Vector4<T> {
    type Output = Vector4<T>;

    /// The operator form of [`Vector4::add`].
    fn add(self, rhs: Vector4<T>) -> (r: Vector4<T>) {
        proof {
            assert(T::in_range(ints(self.vals())[0] + ints(rhs.vals())[0]));
            assert(T::in_range(ints(self.vals())[1] + ints(rhs.vals())[1]));
            assert(T::in_range(ints(self.vals())[2] + ints(rhs.vals())[2]));
            assert(T::in_range(ints(self.vals())[3] + ints(rhs.vals())[3]));
        }
        Vector4 { x: self.x.add(rhs.x), y: self.y.add(rhs.y), z: self.z.add(rhs.z), w: self.w.add(rhs.w) }
    }
}

impl<T: VectorElement> vstd::std_specs::ops::AddSpecImpl<Vector4<T>> for Vector4<T> {
    open spec fn obeys_add_spec() -> bool {
        true
    }

    open spec fn add_req(self, rhs: Vector4<T>) -> bool {
        add_ok::<T>(ints(self.vals()), ints(rhs.vals()))
    }

    open spec fn add_spec(self, rhs: Vector4<T>) -> Vector4<T> {
        Vector4 { x: self.x.add_val(rhs.x), y: self.y.add_val(rhs.y), z: self.z.add_val(rhs.z), w: self.w.add_val(rhs.w) }
    }
}

impl<T: VectorElement> core::ops::Sub<Vector4<T>> for Vector4<T> {
    type Output = Vector4<T>;

    /// The operator form of [`Vector4::sub`].
    fn sub(self, rhs: Vector4<T>) -> (r: Vector4<T>) {
        proof {
            assert(T::in_range(ints(self.vals())[0] - ints(rhs.vals())[0]));
            assert(T::in_range(ints(self.vals())[1] - ints(rhs.vals())[1]));
            assert(T::in_range(ints(self.vals())[2] - ints(rhs.vals())[2]));
            assert(T::in_range(ints(self.vals())[3] - ints(rhs.vals())[3]));
        }
        Vector4 { x: self.x.sub(rhs.x), y: self.y.sub(rhs.y), z: self.z.sub(rhs.z), w: self.w.sub(rhs.w) }
    }
}

impl<T: VectorElement> vstd::std_specs::ops::SubSpecImpl<Vector4<T>> for Vector4<T> {
    open spec fn obeys_sub_spec() -> bool {
        true
    }

    open spec fn sub_req(self, rhs: Vector4<T>) -> bool {
        sub_ok::<T>(ints(self.vals()), ints(rhs.vals()))
    }

    open spec fn sub_spec(self, rhs: Vector4<T>) -> Vector4<T> {
        Vector4 { x: self.x.sub_val(rhs.x), y: self.y.sub_val(rhs.y), z: self.z.sub_val(rhs.z), w: self.w.sub_val(rhs.w) }
    }
}

impl<T: VectorElement> core::ops::Mul<Vector4<T>> for Vector4<T> {
    type Output = Vector4<T>;

    /// The operator form of [`Vector4::mul`].
    fn mul(self, rhs: Vector4<T>) -> (r: Vector4<T>) {
        proof {
            assert(T::in_range(ints(self.vals())[0] * ints(rhs.vals())[0]));
            assert(T::in_range(ints(self.vals())[1] * ints(rhs.vals())[1]));
            assert(T::in_range(ints(self.vals())[2] * ints(rhs.vals())[2]));
            assert(T::in_range(ints(self.vals())[3] * ints(rhs.vals())[3]));
        }
        Vector4 { x: self.x.mul(rhs.x), y: self.y.mul(rhs.y), z: self.z.mul(rhs.z), w: self.w.mul(rhs.w) }
    }
}

impl<T: VectorElement> vstd::std_specs::ops::MulSpecImpl<Vector4<T>> for Vector4<T> {
    open spec fn obeys_mul_spec() -> bool {
        true
    }

    open spec fn mul_req(self, rhs: Vector4<T>) -> bool {
        mul_ok::<T>(ints(self.vals()), ints(rhs.vals()))
    }

    open spec fn mul_spec(self, rhs: Vector4<T>) -> Vector4<T> {
        Vector4 { x: self.x.mul_val(rhs.x), y: self.y.mul_val(rhs.y), z: self.z.mul_val(rhs.z), w: self.w.mul_val(rhs.w) }
    }
}

impl<T: VectorElement> core::ops::Div<Vector4<T>> for Vector4<T> {
    type Output = Vector4<T>;

    /// The operator form of [`Vector4::div`].
    fn div(self, rhs: Vector4<T>) -> (r: Vector4<T>) {
        proof {
            assert(T::in_range(trunc_div(ints(self.vals())[0], ints(rhs.vals())[0])));
            assert(T::in_range(trunc_div(ints(self.vals())[1], ints(rhs.vals())[1])));
            assert(T::in_range(trunc_div(ints(self.vals())[2], ints(rhs.vals())[2])));
            assert(T::in_range(trunc_div(ints(self.vals())[3], ints(rhs.vals())[3])));
        }
        Vector4 { x: self.x.div(rhs.x), y: self.y.div(rhs.y), z: self.z.div(rhs.z), w: self.w.div(rhs.w) }
    }
}

impl<T: VectorElement> vstd::std_specs::ops::DivSpecImpl<Vector4<T>> for Vector4<T> {
    open spec fn obeys_div_spec() -> bool {
        true
    }

    open spec fn div_req(self, rhs: Vector4<T>) -> bool {
        div_ok::<T>(ints(self.vals()), ints(rhs.vals()))
    }

    open spec fn div_spec(self, rhs: Vector4<T>) -> Vector4<T> {
        Vector4 { x: self.x.div_val(rhs.x), y: self.y.div_val(rhs.y), z: self.z.div_val(rhs.z), w: self.w.div_val(rhs.w) }
    }
}

impl<T: VectorElement> core::ops::Mul<T> for Vector4<T> {
    type Output = Vector4<T>;

    /// The operator form of [`Vector4::mul_scalar`].
    fn mul(self, scalar: T) -> (r: Vector4<T>) {
        proof {
            assert(T::in_range(ints(self.vals())[0] * scalar.as_int()));
            assert(T::in_range(ints(self.vals())[1] * scalar.as_int()));
            assert(T::in_range(ints(self.vals())[2] * scalar.as_int()));
            assert(T::in_range(ints(self.vals())[3] * scalar.as_int()));
        }
        Vector4 { x: self.x.mul(scalar), y: self.y.mul(scalar), z: self.z.mul(scalar), w: self.w.mul(scalar) }
    }
}

impl<T: VectorElement> vstd::std_specs::ops::MulSpecImpl<T> for Vector4<T> {
    open spec fn obeys_mul_spec() -> bool {
        true
    }

    open spec fn mul_req(self, scalar: T) -> bool {
        scale_ok::<T>(ints(self.vals()), scalar.as_int())
    }

    open spec fn mul_spec(self, scalar: T) -> Vector4<T> {
        Vector4 { x: self.x.mul_val(scalar), y: self.y.mul_val(scalar), z: self.z.mul_val(scalar), w: self.w.mul_val(scalar) }
    }
}

impl<T: VectorElement> core::ops::Div<T> for Vector4<T> {
    type Output = Vector4<T>;

    /// The operator form of [`Vector4::div_scalar`].
    fn div(self, scalar: T) -> (r: Vector4<T>) {
        proof {
            assert(T::in_range(trunc_div(ints(self.vals())[0], scalar.as_int())));
            assert(T::in_range(trunc_div(ints(self.vals())[1], scalar.as_int())));
            assert(T::in_range(trunc_div(ints(self.vals())[2], scalar.as_int())));
            assert(T::in_range(trunc_div(ints(self.vals())[3], scalar.as_int())));
        }
        Vector4 { x: self.x.div(scalar), y: self.y.div(scalar), z: self.z.div(scalar), w: self.w.div(scalar) }
    }
}

impl<T: VectorElement> vstd::std_specs::ops::DivSpecImpl<T> for Vector4<T> {
    open spec fn obeys_div_spec() -> bool {
        true
    }

    open spec fn div_req(self, scalar: T) -> bool {
        div_scalar_ok::<T>(ints(self.vals()), scalar.as_int())
    }

    open spec fn div_spec(self, scalar: T) -> Vector4<T> {
        Vector4 { x: self.x.div_val(scalar), y: self.y.div_val(scalar), z: self.z.div_val(scalar), w: self.w.div_val(scalar) }
    }
}

impl<T: VectorElement> core::ops::Neg for Vector4<T> {
    type Output = Vector4<T>;

    /// The operator form of [`Vector4::neg`].
    fn neg(self) -> (r: Vector4<T>) {
        proof {
            assert(T::in_range(-ints(self.vals())[0]));
            assert(T::in_range(-ints(self.vals())[1]));
            assert(T::in_range(-ints(self.vals())[2]));
            assert(T::in_range(-ints(self.vals())[3]));
        }
        Vector4 { x: self.x.neg(), y: self.y.neg(), z: self.z.neg(), w: self.w.neg() }
    }
}

impl<T: VectorElement> vstd::std_specs::ops::NegSpecImpl for Vector4<T> {
    open spec fn obeys_neg_spec() -> bool {
        true
    }

    open spec fn neg_req(self) -> bool {
        neg_ok::<T>(ints(self.vals()))
    }

    open spec fn neg_spec(self) -> Vector4<T> {
        Vector4 { x: self.x.neg_val(), y: self.y.neg_val(), z: self.z.neg_val(), w: self.w.neg_val() }
    }
}

} // verus!
