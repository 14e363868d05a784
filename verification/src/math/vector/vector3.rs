//! A three-dimensional vector with named fields.

use crate::math::vector::model::{
    add_ok, add_vals, div_ok, div_scalar_ok, div_scalar_vals, div_vals, dot_int, dot_ok, dot_val,
    ints, lemma_dot_int_take_step, lemma_dot_val_take_step, mul_ok, mul_vals, neg_ok, neg_vals,
    scale_ok, scale_vals, seq_add, seq_div, seq_div_scalar, seq_mul, seq_neg, seq_scale, seq_sub,
    sub_ok, sub_vals, angle_val,
    cross_int, cross_ok, cross_vals,
};
use crate::math::vector::traits::{trunc_div, FloatElement, VectorElement, VectorLike};
use crate::num::{One, Zero};
use vstd::prelude::*;

verus! {

/// A vector of three elements, addressed as `x`, `y`, `z` or by the
/// indices 0, 1 and 2.
#[derive(Clone, Copy, Debug, Default, PartialEq)]
pub struct Vector3<T: VectorElement> {
    pub x: T,
    pub y: T,
    pub z: T,
}

impl<T: VectorElement> Vector3<T> {
    /// Creates the vector with the given components.
    pub fn new(x: T, y: T, z: T) -> (r: Self)
        ensures
            r.x == x,
            r.y == y,
            r.z == z,
    {
        Self { x, y, z }
    }

    /// The unit vector along the positive x axis.
    pub fn unit_x() -> (r: Self)
        ensures
            r.x == T::one_spec(),
            r.y == T::zero_spec(),
            r.z == T::zero_spec(),
    {
        Self { x: T::one(), y: T::zero(), z: T::zero() }
    }

    /// The unit vector along the positive y axis.
    pub fn unit_y() -> (r: Self)
        ensures
            r.x == T::zero_spec(),
            r.y == T::one_spec(),
            r.z == T::zero_spec(),
    {
        Self { x: T::zero(), y: T::one(), z: T::zero() }
    }

    /// The unit vector along the positive z axis.
    pub fn unit_z() -> (r: Self)
        ensures
            r.x == T::zero_spec(),
            r.y == T::zero_spec(),
            r.z == T::one_spec(),
    {
        Self { x: T::zero(), y: T::zero(), z: T::one() }
    }
}

impl<T: VectorElement> Vector3<T> {
    /// Creates the vector from a one-dimensional vector and the
    /// remaining components.
    pub fn from_v1_with_yz<V: VectorLike<T, 1>>(v: V, y: T, z: T) -> (r: Self)
        requires
            v.vals().len() == 1,
        ensures
            r.x == v.vals()[0],
            r.y == y,
            r.z == z,
    {
        Self { x: v.get(0), y, z }
    }

    /// Creates the vector from a two-dimensional vector and the
    /// remaining components.
    pub fn from_v2_with_z<V: VectorLike<T, 2>>(v: V, z: T) -> (r: Self)
        requires
            v.vals().len() == 2,
        ensures
            r.x == v.vals()[0],
            r.y == v.vals()[1],
            r.z == z,
    {
        Self { x: v.get(0), y: v.get(1), z }
    }
}

impl<T: VectorElement> Zero for Vector3<T> {
    open spec fn zero_spec() -> Self {
        Vector3 { x: T::zero_spec(), y: T::zero_spec(), z: T::zero_spec() }
    }

    fn zero() -> (r: Self) {
        Vector3 { x: T::zero(), y: T::zero(), z: T::zero() }
    }

    fn is_zero(&self) -> (r: bool)
        ensures
            T::obeys_model() ==> r == (*self == Self::zero_spec()),
    {
        let zx = self.x.eq_val(T::zero());
        let zy = self.y.eq_val(T::zero());
        let zz = self.z.eq_val(T::zero());
        proof {
            T::lemma_element_model(self.x, T::zero_spec());
            T::lemma_element_model(self.y, T::zero_spec());
            T::lemma_element_model(self.z, T::zero_spec());
        }
        zx && zy && zz
    }
}

impl<T: VectorElement> One for Vector3<T> {
    open spec fn one_spec() -> Self {
        Vector3 { x: T::one_spec(), y: T::one_spec(), z: T::one_spec() }
    }

    fn one() -> (r: Self) {
        Vector3 { x: T::one(), y: T::one(), z: T::one() }
    }
}

impl<T: VectorElement> VectorLike<T, 3> for Vector3<T> {
    open spec fn vals(&self) -> Seq<T> {
        seq![self.x, self.y, self.z]
    }

    proof fn lemma_vals_len(&self) {
    }

    fn get(&self, index: usize) -> (r: T) {
        if index == 0 {
            self.x
        } else if index == 1 {
            self.y
        } else {
            self.z
        }
    }

    fn set(&mut self, index: usize, value: T) {
        if index == 0 {
            self.x = value;
        } else if index == 1 {
            self.y = value;
        } else {
            self.z = value;
        }
        proof {
            assert(self.vals() =~= old(self).vals().update(index as int, value));
        }
    }
}

impl<T: VectorElement> From<[T; 3]> for Vector3<T> {
    fn from(value: [T; 3]) -> (r: Self) {
        Vector3 { x: value[0], y: value[1], z: value[2] }
    }
}

impl<T: VectorElement> vstd::std_specs::convert::FromSpecImpl<[T; 3]> for Vector3<T> {
    open spec fn obeys_from_spec() -> bool {
        true
    }

    open spec fn from_spec(v: [T; 3]) -> Self {
        Vector3 { x: v@[0], y: v@[1], z: v@[2] }
    }
}

impl<T: VectorElement> From<(T, T, T)> for Vector3<T> {
    fn from(value: (T, T, T)) -> (r: Self) {
        Vector3 { x: value.0, y: value.1, z: value.2 }
    }
}

impl<T: VectorElement> vstd::std_specs::convert::FromSpecImpl<(T, T, T)> for Vector3<T> {
    open spec fn obeys_from_spec() -> bool {
        true
    }

    open spec fn from_spec(v: (T, T, T)) -> Self {
        Vector3 { x: v.0, y: v.1, z: v.2 }
    }
}

impl<T: VectorElement> Vector3<T> {
    /// Elementwise sum with anything vector-shaped.
    pub fn add<V: VectorLike<T, 3>>(self, rhs: V) -> (r: Self)
        requires
            add_ok::<T>(ints(self.vals()), ints(rhs.vals())),
            rhs.vals().len() == 3,
        ensures
            r.vals() == add_vals(self.vals(), rhs.vals()),
            ints(r.vals()) == seq_add(ints(self.vals()), ints(rhs.vals())),
    {
        let r0 = rhs.get(0);
        let r1 = rhs.get(1);
        let r2 = rhs.get(2);
        proof {
            assert(T::in_range(ints(self.vals())[0] + ints(rhs.vals())[0]));
            assert(T::in_range(ints(self.vals())[1] + ints(rhs.vals())[1]));
            assert(T::in_range(ints(self.vals())[2] + ints(rhs.vals())[2]));
        }
        let r = Self { x: self.x.add(r0), y: self.y.add(r1), z: self.z.add(r2) };
        proof {
            assert(r.vals() =~= add_vals(self.vals(), rhs.vals()));
            assert(ints(r.vals()) =~= seq_add(ints(self.vals()), ints(rhs.vals())));
        }
        r
    }

    /// Elementwise difference with anything vector-shaped.
    pub fn sub<V: VectorLike<T, 3>>(self, rhs: V) -> (r: Self)
        requires
            sub_ok::<T>(ints(self.vals()), ints(rhs.vals())),
            rhs.vals().len() == 3,
        ensures
            r.vals() == sub_vals(self.vals(), rhs.vals()),
            ints(r.vals()) == seq_sub(ints(self.vals()), ints(rhs.vals())),
    {
        let r0 = rhs.get(0);
        let r1 = rhs.get(1);
        let r2 = rhs.get(2);
        proof {
            assert(T::in_range(ints(self.vals())[0] - ints(rhs.vals())[0]));
            assert(T::in_range(ints(self.vals())[1] - ints(rhs.vals())[1]));
            assert(T::in_range(ints(self.vals())[2] - ints(rhs.vals())[2]));
        }
        let r = Self { x: self.x.sub(r0), y: self.y.sub(r1), z: self.z.sub(r2) };
        proof {
            assert(r.vals() =~= sub_vals(self.vals(), rhs.vals()));
            assert(ints(r.vals()) =~= seq_sub(ints(self.vals()), ints(rhs.vals())));
        }
        r
    }

    /// Elementwise product with anything vector-shaped.
    pub fn mul<V: VectorLike<T, 3>>(self, rhs: V) -> (r: Self)
        requires
            mul_ok::<T>(ints(self.vals()), ints(rhs.vals())),
            rhs.vals().len() == 3,
        ensures
            r.vals() == mul_vals(self.vals(), rhs.vals()),
            ints(r.vals()) == seq_mul(ints(self.vals()), ints(rhs.vals())),
    {
        let r0 = rhs.get(0);
        let r1 = rhs.get(1);
        let r2 = rhs.get(2);
        proof {
            assert(T::in_range(ints(self.vals())[0] * ints(rhs.vals())[0]));
            assert(T::in_range(ints(self.vals())[1] * ints(rhs.vals())[1]));
            assert(T::in_range(ints(self.vals())[2] * ints(rhs.vals())[2]));
        }
        let r = Self { x: self.x.mul(r0), y: self.y.mul(r1), z: self.z.mul(r2) };
        proof {
            assert(r.vals() =~= mul_vals(self.vals(), rhs.vals()));
            assert(ints(r.vals()) =~= seq_mul(ints(self.vals()), ints(rhs.vals())));
        }
        r
    }

    /// Elementwise quotient with anything vector-shaped, truncating on integer elements.
    pub fn div<V: VectorLike<T, 3>>(self, rhs: V) -> (r: Self)
        requires
            div_ok::<T>(ints(self.vals()), ints(rhs.vals())),
            rhs.vals().len() == 3,
        ensures
            r.vals() == div_vals(self.vals(), rhs.vals()),
            ints(r.vals()) == seq_div(ints(self.vals()), ints(rhs.vals())),
    {
        let r0 = rhs.get(0);
        let r1 = rhs.get(1);
        let r2 = rhs.get(2);
        proof {
            assert(T::in_range(trunc_div(ints(self.vals())[0], ints(rhs.vals())[0])));
            assert(T::in_range(trunc_div(ints(self.vals())[1], ints(rhs.vals())[1])));
            assert(T::in_range(trunc_div(ints(self.vals())[2], ints(rhs.vals())[2])));
        }
        let r = Self { x: self.x.div(r0), y: self.y.div(r1), z: self.z.div(r2) };
        proof {
            assert(r.vals() =~= div_vals(self.vals(), rhs.vals()));
            assert(ints(r.vals()) =~= seq_div(ints(self.vals()), ints(rhs.vals())));
        }
        r
    }

    /// Elementwise sum, assigned in place.
    pub fn add_assign<V: VectorLike<T, 3>>(&mut self, rhs: V)
        requires
            add_ok::<T>(ints(old(self).vals()), ints(rhs.vals())),
            rhs.vals().len() == 3,
        ensures
            final(self).vals() == add_vals(old(self).vals(), rhs.vals()),
            ints(final(self).vals()) == seq_add(ints(old(self).vals()), ints(rhs.vals())),
    {
        let v = *self;
        *self = v.add(rhs);
    }

    /// Elementwise difference, assigned in place.
    pub fn sub_assign<V: VectorLike<T, 3>>(&mut self, rhs: V)
        requires
            sub_ok::<T>(ints(old(self).vals()), ints(rhs.vals())),
            rhs.vals().len() == 3,
        ensures
            final(self).vals() == sub_vals(old(self).vals(), rhs.vals()),
            ints(final(self).vals()) == seq_sub(ints(old(self).vals()), ints(rhs.vals())),
    {
        let v = *self;
        *self = v.sub(rhs);
    }

    /// Elementwise product, assigned in place.
    pub fn mul_assign<V: VectorLike<T, 3>>(&mut self, rhs: V)
        requires
            mul_ok::<T>(ints(old(self).vals()), ints(rhs.vals())),
            rhs.vals().len() == 3,
        ensures
            final(self).vals() == mul_vals(old(self).vals(), rhs.vals()),
            ints(final(self).vals()) == seq_mul(ints(old(self).vals()), ints(rhs.vals())),
    {
        let v = *self;
        *self = v.mul(rhs);
    }

    /// Elementwise quotient, assigned in place.
    pub fn div_assign<V: VectorLike<T, 3>>(&mut self, rhs: V)
        requires
            div_ok::<T>(ints(old(self).vals()), ints(rhs.vals())),
            rhs.vals().len() == 3,
        ensures
            final(self).vals() == div_vals(old(self).vals(), rhs.vals()),
            ints(final(self).vals()) == seq_div(ints(old(self).vals()), ints(rhs.vals())),
    {
        let v = *self;
        *self = v.div(rhs);
    }

    /// Every element scaled by `scalar`.
    pub fn mul_scalar(self, scalar: T) -> (r: Self)
        requires
            scale_ok::<T>(ints(self.vals()), scalar.as_int()),
        ensures
            r.vals() == scale_vals(self.vals(), scalar),
            ints(r.vals()) == seq_scale(ints(self.vals()), scalar.as_int()),
    {
        proof {
            assert(T::in_range(ints(self.vals())[0] * scalar.as_int()));
            assert(T::in_range(ints(self.vals())[1] * scalar.as_int()));
            assert(T::in_range(ints(self.vals())[2] * scalar.as_int()));
        }
        let r = Self { x: self.x.mul(scalar), y: self.y.mul(scalar), z: self.z.mul(scalar) };
        proof {
            assert(r.vals() =~= scale_vals(self.vals(), scalar));
            assert(ints(r.vals()) =~= seq_scale(ints(self.vals()), scalar.as_int()));
        }
        r
    }

    /// Every element divided by `scalar`, truncating on integer
    /// elements.
    pub fn div_scalar(self, scalar: T) -> (r: Self)
        requires
            div_scalar_ok::<T>(ints(self.vals()), scalar.as_int()),
        ensures
            r.vals() == div_scalar_vals(self.vals(), scalar),
            ints(r.vals()) == seq_div_scalar(ints(self.vals()), scalar.as_int()),
    {
        proof {
            assert(T::in_range(trunc_div(ints(self.vals())[0], scalar.as_int())));
            assert(T::in_range(trunc_div(ints(self.vals())[1], scalar.as_int())));
            assert(T::in_range(trunc_div(ints(self.vals())[2], scalar.as_int())));
        }
        let r = Self { x: self.x.div(scalar), y: self.y.div(scalar), z: self.z.div(scalar) };
        proof {
            assert(r.vals() =~= div_scalar_vals(self.vals(), scalar));
            assert(ints(r.vals()) =~= seq_div_scalar(ints(self.vals()), scalar.as_int()));
        }
        r
    }

    /// Every element scaled by `scalar`, assigned in place.
    pub fn mul_scalar_assign(&mut self, scalar: T)
        requires
            scale_ok::<T>(ints(old(self).vals()), scalar.as_int()),
        ensures
            final(self).vals() == scale_vals(old(self).vals(), scalar),
            ints(final(self).vals()) == seq_scale(ints(old(self).vals()), scalar.as_int()),
    {
        let v = *self;
        *self = v.mul_scalar(scalar);
    }

    /// Every element divided by `scalar`, assigned in place.
    pub fn div_scalar_assign(&mut self, scalar: T)
        requires
            div_scalar_ok::<T>(ints(old(self).vals()), scalar.as_int()),
        ensures
            final(self).vals() == div_scalar_vals(old(self).vals(), scalar),
            ints(final(self).vals()) == seq_div_scalar(ints(old(self).vals()), scalar.as_int()),
    {
        let v = *self;
        *self = v.div_scalar(scalar);
    }

    /// Elementwise negation.
    pub fn neg(self) -> (r: Self)
        requires
            neg_ok::<T>(ints(self.vals())),
        ensures
            r.vals() == neg_vals(self.vals()),
            ints(r.vals()) == seq_neg(ints(self.vals())),
    {
        proof {
            assert(T::in_range(-ints(self.vals())[0]));
            assert(T::in_range(-ints(self.vals())[1]));
            assert(T::in_range(-ints(self.vals())[2]));
        }
        let r = Self { x: self.x.neg(), y: self.y.neg(), z: self.z.neg() };
        proof {
            assert(r.vals() =~= neg_vals(self.vals()));
            assert(ints(r.vals()) =~= seq_neg(ints(self.vals())));
        }
        r
    }

    /// The sum of the squares of the elements. Exactly the dot product
    /// of the vector with itself.
    pub fn length_squared(&self) -> (r: T)
        requires
            dot_ok::<T>(ints(self.vals()), ints(self.vals())),
        ensures
            r == dot_val(self.vals(), self.vals()),
            r.as_int() == dot_int(ints(self.vals()), ints(self.vals())),
    {
        let v = *self;
        v.dot(v)
    }

    /// The dot product with anything vector-shaped.
    pub fn dot<V: VectorLike<T, 3>>(&self, rhs: V) -> (r: T)
        requires
            dot_ok::<T>(ints(self.vals()), ints(rhs.vals())),
            rhs.vals().len() == 3,
        ensures
            r == dot_val(self.vals(), rhs.vals()),
            r.as_int() == dot_int(ints(self.vals()), ints(rhs.vals())),
    {
        let ghost a = self.vals();
        let ghost b = rhs.vals();
        let mut result = T::zero();
        proof {
            assert(a.take(0) =~= Seq::<T>::empty());
            assert(b.take(0) =~= Seq::<T>::empty());
            assert(ints(a).take(0) =~= Seq::<int>::empty());
            assert(ints(b).take(0) =~= Seq::<int>::empty());
            assert(T::in_range(dot_int(ints(a).take(0), ints(b).take(0))));
            T::lemma_element_model(result, result);
        }
        let r0 = rhs.get(0);
        proof {
            lemma_dot_val_take_step(a, b, 0);
            lemma_dot_int_take_step(ints(a), ints(b), 0);
            assert(T::in_range(ints(a)[0] * ints(b)[0]));
            assert(T::in_range(dot_int(ints(a).take(1), ints(b).take(1))));
        }
        result = result.add(self.x.mul(r0));
        let r1 = rhs.get(1);
        proof {
            lemma_dot_val_take_step(a, b, 1);
            lemma_dot_int_take_step(ints(a), ints(b), 1);
            assert(T::in_range(ints(a)[1] * ints(b)[1]));
            assert(T::in_range(dot_int(ints(a).take(2), ints(b).take(2))));
        }
        result = result.add(self.y.mul(r1));
        let r2 = rhs.get(2);
        proof {
            lemma_dot_val_take_step(a, b, 2);
            lemma_dot_int_take_step(ints(a), ints(b), 2);
            assert(T::in_range(ints(a)[2] * ints(b)[2]));
            assert(T::in_range(dot_int(ints(a).take(3), ints(b).take(3))));
        }
        result = result.add(self.z.mul(r2));
        proof {
            assert(a.take(3) =~= a);
            assert(b.take(3) =~= b);
            assert(ints(a).take(3) =~= ints(a));
            assert(ints(b).take(3) =~= ints(b));
        }
        result
    }

    /// The right-handed cross product with anything vector-shaped.
    pub fn cross<V: VectorLike<T, 3>>(&self, rhs: V) -> (r: Self)
        requires
            cross_ok::<T>(ints(self.vals()), ints(rhs.vals())),
            rhs.vals().len() == 3,
        ensures
            r.vals() == cross_vals(self.vals(), rhs.vals()),
            ints(r.vals()) == cross_int(ints(self.vals()), ints(rhs.vals())),
    {
        let r0 = rhs.get(0);
        let r1 = rhs.get(1);
        let r2 = rhs.get(2);
        let r = Self {
            x: self.y.mul(r2).sub(self.z.mul(r1)),
            y: self.x.mul(r2).sub(self.z.mul(r0)).neg(),
            z: self.x.mul(r1).sub(self.y.mul(r0)),
        };
        proof {
            assert(r.vals() =~= cross_vals(self.vals(), rhs.vals()));
            assert(ints(r.vals()) =~= cross_int(ints(self.vals()), ints(rhs.vals())));
        }
        r
    }
}

impl<T: FloatElement> Vector3<T> {
    /// The length: the square root of the sum of the squared elements.
    pub fn length(&self) -> (r: T)
        ensures
            r == dot_val(self.vals(), self.vals()).sqrt_val(),
    {
        proof {
            T::lemma_total();
        }
        self.length_squared().sqrt()
    }

    /// The vector scaled to length one; the zero vector stays the zero
    /// vector.
    pub fn normalized(&self) -> (r: Self)
        ensures
            r == Self::zero_spec() || r.vals() == div_scalar_vals(
                self.vals(),
                dot_val(self.vals(), self.vals()).sqrt_val(),
            ),
            T::obeys_model() ==> (dot_val(self.vals(), self.vals()).sqrt_val().as_int() == 0
                ==> r == Self::zero_spec()),
            T::obeys_model() ==> (dot_val(self.vals(), self.vals()).sqrt_val().as_int() != 0
                ==> r.vals() == div_scalar_vals(
                self.vals(),
                dot_val(self.vals(), self.vals()).sqrt_val(),
            )),
    {
        proof {
            T::lemma_total();
        }
        let len = self.length();
        if !len.eq_val(T::zero()) {
            proof {
                T::lemma_element_model(T::zero_spec(), T::zero_spec());
            }
            let r = Self { x: self.x.div_total(len), y: self.y.div_total(len), z: self.z.div_total(len) };
            proof {
                assert(r.vals() =~= div_scalar_vals(self.vals(), len));
            }
            r
        } else {
            proof {
                T::lemma_element_model(T::zero_spec(), T::zero_spec());
            }
            Self::zero()
        }
    }

    /// Scales the vector to length one in place; the zero vector stays
    /// the zero vector.
    pub fn normalize(&mut self)
        ensures
            *final(self) == Self::zero_spec() || final(self).vals() == div_scalar_vals(
                old(self).vals(),
                dot_val(old(self).vals(), old(self).vals()).sqrt_val(),
            ),
            T::obeys_model() ==> (dot_val(old(self).vals(), old(self).vals()).sqrt_val().as_int()
                == 0 ==> *final(self) == Self::zero_spec()),
            T::obeys_model() ==> (dot_val(old(self).vals(), old(self).vals()).sqrt_val().as_int()
                != 0 ==> final(self).vals() == div_scalar_vals(
                old(self).vals(),
                dot_val(old(self).vals(), old(self).vals()).sqrt_val(),
            )),
    {
        let v = *self;
        *self = v.normalized();
    }

    /// The distance to `rhs`: the length of the difference.
    pub fn distance(&self, rhs: Self) -> (r: T)
        ensures
            r == dot_val(sub_vals(self.vals(), rhs.vals()), sub_vals(self.vals(), rhs.vals()))
                .sqrt_val(),
    {
        proof {
            T::lemma_total();
        }
        let v = *self;
        let diff = v.sub(rhs);
        diff.length()
    }

    /// The unsigned angle to `rhs`, in radians: meaningful only when
    /// neither vector has length zero.
    pub fn angle(&self, rhs: Self) -> (r: T)
        ensures
            r == angle_val(self.vals(), rhs.vals()),
    {
        proof {
            T::lemma_total();
        }
        let d = self.dot(rhs);
        let len = self.length().mul(rhs.length());
        d.div_total(len).acos()
    }

    /// The angle to `rhs` with its sign taken from the side of the
    /// plane through `normal` the cross product falls on.
    pub fn signed_angle<V: VectorLike<T, 3>>(&self, rhs: Self, normal: V) -> (r: T)
        requires
            normal.vals().len() == 3,
        ensures
            r == angle_val(self.vals(), rhs.vals()) || r == angle_val(
                self.vals(),
                rhs.vals(),
            ).neg_val(),
            T::obeys_model() ==> (dot_val(cross_vals(self.vals(), rhs.vals()), normal.vals())
                .as_int() < 0 ==> r == angle_val(self.vals(), rhs.vals()).neg_val()),
            T::obeys_model() ==> (dot_val(cross_vals(self.vals(), rhs.vals()), normal.vals())
                .as_int() >= 0 ==> r == angle_val(self.vals(), rhs.vals())),
    {
        proof {
            T::lemma_total();
        }
        let angle = self.angle(rhs);
        let cross = self.cross(rhs);
        let side = cross.dot(normal);
        proof {
            T::lemma_element_model(side, side);
        }
        if side.lt(T::zero()) {
            angle.neg()
        } else {
            angle
        }
    }

    /// The reflection about the plane with the unit normal `normal`:
    /// the vector less twice its projection onto the normal.
    pub fn reflect(&self, normal: Self) -> (r: Self)
        ensures
            r.vals() == sub_vals(
                self.vals(),
                scale_vals(
                    scale_vals(normal.vals(), dot_val(self.vals(), normal.vals())),
                    T::one_spec().add_val(T::one_spec()),
                ),
            ),
    {
        proof {
            T::lemma_total();
        }
        let d = self.dot(normal);
        let two = T::one().add(T::one());
        let v = *self;
        v.sub(normal.mul_scalar(d).mul_scalar(two))
    }
}


impl<T: VectorElement> core::ops::Add<Vector3<T>> for Vector3<T> {
    type Output = Vector3<T>;

    /// The operator form of [`Vector3::add`].
    fn add(self, rhs: Vector3<T>) -> (r: Vector3<T>) {
        proof {
            assert(T::in_range(ints(self.vals())[0] + ints(rhs.vals())[0]));
            assert(T::in_range(ints(self.vals())[1] + ints(rhs.vals())[1]));
            assert(T::in_range(ints(self.vals())[2] + ints(rhs.vals())[2]));
        }
        Vector3 { x: self.x.add(rhs.x), y: self.y.add(rhs.y), z: self.z.add(rhs.z) }
    }
}

impl<T: VectorElement> vstd::std_specs::ops::AddSpecImpl<Vector3<T>> for Vector3<T> {
    open spec fn obeys_add_spec() -> bool {
        true
    }

    open spec fn add_req(self, rhs: Vector3<T>) -> bool {
        add_ok::<T>(ints(self.vals()), ints(rhs.vals()))
    }

    open spec fn add_spec(self, rhs: Vector3<T>) -> Vector3<T> {
        Vector3 { x: self.x.add_val(rhs.x), y: self.y.add_val(rhs.y), z: self.z.add_val(rhs.z) }
    }
}

impl<T: VectorElement> core::ops::Sub<Vector3<T>> for Vector3<T> {
    type Output = Vector3<T>;

    /// The operator form of [`Vector3::sub`].
    fn sub(self, rhs: Vector3<T>) -> (r: Vector3<T>) {
        proof {
            assert(T::in_range(ints(self.vals())[0] - ints(rhs.vals())[0]));
            assert(T::in_range(ints(self.vals())[1] - ints(rhs.vals())[1]));
            assert(T::in_range(ints(self.vals())[2] - ints(rhs.vals())[2]));
        }
        Vector3 { x: self.x.sub(rhs.x), y: self.y.sub(rhs.y), z: self.z.sub(rhs.z) }
    }
}

impl<T: VectorElement> vstd::std_specs::ops::SubSpecImpl<Vector3<T>> for Vector3<T> {
    open spec fn obeys_sub_spec() -> bool {
        true
    }

    open spec fn sub_req(self, rhs: Vector3<T>) -> bool {
        sub_ok::<T>(ints(self.vals()), ints(rhs.vals()))
    }

    open spec fn sub_spec(self, rhs: Vector3<T>) -> Vector3<T> {
        Vector3 { x: self.x.sub_val(rhs.x), y: self.y.sub_val(rhs.y), z: self.z.sub_val(rhs.z) }
    }
}

impl<T: VectorElement> core::ops::Mul<Vector3<T>> for Vector3<T> {
    type Output = Vector3<T>;

    /// The operator form of [`Vector3::mul`].
    fn mul(self, rhs: Vector3<T>) -> (r: Vector3<T>) {
        proof {
            assert(T::in_range(ints(self.vals())[0] * ints(rhs.vals())[0]));
            assert(T::in_range(ints(self.vals())[1] * ints(rhs.vals())[1]));
            assert(T::in_range(ints(self.vals())[2] * ints(rhs.vals())[2]));
        }
        Vector3 { x: self.x.mul(rhs.x), y: self.y.mul(rhs.y), z: self.z.mul(rhs.z) }
    }
}

impl<T: VectorElement> vstd::std_specs::ops::MulSpecImpl<Vector3<T>> for Vector3<T> {
    open spec fn obeys_mul_spec() -> bool {
        true
    }

    open spec fn mul_req(self, rhs: Vector3<T>) -> bool {
        mul_ok::<T>(ints(self.vals()), ints(rhs.vals()))
    }

    open spec fn mul_spec(self, rhs: Vector3<T>) -> Vector3<T> {
        Vector3 { x: self.x.mul_val(rhs.x), y: self.y.mul_val(rhs.y), z: self.z.mul_val(rhs.z) }
    }
}

impl<T: VectorElement> core::ops::Div<Vector3<T>> for Vector3<T> {
    type Output = Vector3<T>;

    /// The operator form of [`Vector3::div`].
    fn div(self, rhs: Vector3<T>) -> (r: Vector3<T>) {
        proof {
            assert(T::in_range(trunc_div(ints(self.vals())[0], ints(rhs.vals())[0])));
            assert(T::in_range(trunc_div(ints(self.vals())[1], ints(rhs.vals())[1])));
            assert(T::in_range(trunc_div(ints(self.vals())[2], ints(rhs.vals())[2])));
        }
        Vector3 { x: self.x.div(rhs.x), y: self.y.div(rhs.y), z: self.z.div(rhs.z) }
    }
}

impl<T: VectorElement> vstd::std_specs::ops::DivSpecImpl<Vector3<T>> for Vector3<T> {
    open spec fn obeys_div_spec() -> bool {
        true
    }

    open spec fn div_req(self, rhs: Vector3<T>) -> bool {
        div_ok::<T>(ints(self.vals()), ints(rhs.vals()))
    }

    open spec fn div_spec(self, rhs: Vector3<T>) -> Vector3<T> {
        Vector3 { x: self.x.div_val(rhs.x), y: self.y.div_val(rhs.y), z: self.z.div_val(rhs.z) }
    }
}

impl<T: VectorElement> core::ops::Mul<T> for Vector3<T> {
    type Output = Vector3<T>;

    /// The operator form of [`Vector3::mul_scalar`].
    fn mul(self, scalar: T) -> (r: Vector3<T>) {
        proof {
            assert(T::in_range(ints(self.vals())[0] * scalar.as_int()));
            assert(T::in_range(ints(self.vals())[1] * scalar.as_int()));
            assert(T::in_range(ints(self.vals())[2] * scalar.as_int()));
        }
        Vector3 { x: self.x.mul(scalar), y: self.y.mul(scalar), z: self.z.mul(scalar) }
    }
}

impl<T: VectorElement> vstd::std_specs::ops::MulSpecImpl<T> for Vector3<T> {
    open spec fn obeys_mul_spec() -> bool {
        true
    }

    open spec fn mul_req(self, scalar: T) -> bool {
        scale_ok::<T>(ints(self.vals()), scalar.as_int())
    }

    open spec fn mul_spec(self, scalar: T) -> Vector3<T> {
        Vector3 { x: self.x.mul_val(scalar), y: self.y.mul_val(scalar), z: self.z.mul_val(scalar) }
    }
}

impl<T: VectorElement> core::ops::Div<T> for Vector3<T> {
    type Output = Vector3<T>;

    /// The operator form of [`Vector3::div_scalar`].
    fn div(self, scalar: T) -> (r: Vector3<T>) {
        proof {
            assert(T::in_range(trunc_div(ints(self.vals())[0], scalar.as_int())));
            assert(T::in_range(trunc_div(ints(self.vals())[1], scalar.as_int())));
            assert(T::in_range(trunc_div(ints(self.vals())[2], scalar.as_int())));
        }
        Vector3 { x: self.x.div(scalar), y: self.y.div(scalar), z: self.z.div(scalar) }
    }
}

impl<T: VectorElement> vstd::std_specs::ops::DivSpecImpl<T> for Vector3<T> {
    open spec fn obeys_div_spec() -> bool {
        true
    }

    open spec fn div_req(self, scalar: T) -> bool {
        div_scalar_ok::<T>(ints(self.vals()), scalar.as_int())
    }

    open spec fn div_spec(self, scalar: T) -> Vector3<T> {
        Vector3 { x: self.x.div_val(scalar), y: self.y.div_val(scalar), z: self.z.div_val(scalar) }
    }
}

impl<T: VectorElement> core::ops::Neg for Vector3<T> {
    type Output = Vector3<T>;

    /// The operator form of [`Vector3::neg`].
    fn neg(self) -> (r: Vector3<T>) {
        proof {
            assert(T::in_range(-ints(self.vals())[0]));
            assert(T::in_range(-ints(self.vals())[1]));
            assert(T::in_range(-ints(self.vals())[2]));
        }
        Vector3 { x: self.x.neg(), y: self.y.neg(), z: self.z.neg() }
    }
}

impl<T: VectorElement> vstd::std_specs::ops::NegSpecImpl for Vector3<T> {
    open spec fn obeys_neg_spec() -> bool {
        true
    }

    open spec fn neg_req(self) -> bool {
        neg_ok::<T>(ints(self.vals()))
    }

    open spec fn neg_spec(self) -> Vector3<T> {
        Vector3 { x: self.x.neg_val(), y: self.y.neg_val(), z: self.z.neg_val() }
    }
}

} // verus!
