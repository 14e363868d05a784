use pyr::math::vector::traits::{FloatElement, VectorElement, VectorLike};
use pyr::math::{ArrayWrapper, Matrix, Vector, Vector3, Vector4};
use pyr::num::{One, Zero};

#[derive(Debug, Clone, Copy, PartialEq, Default)]
struct F32(f32);

impl Zero for F32 {
    fn zero_spec() -> Self {
        F32(0.0)
    }

    fn zero() -> Self {
        F32(0.0)
    }

    fn is_zero(&self) -> bool {
        self.0 == 0.0
    }
}

impl One for F32 {
    fn one_spec() -> Self {
        F32(1.0)
    }

    fn one() -> Self {
        F32(1.0)
    }
}

impl VectorElement for F32 {
    // The model functions below are never run; they name the values the
    // operations return. The integer model is not exact for a float.
    fn obeys_model() -> bool {
        false
    }

    fn add_val(self, rhs: Self) -> Self {
        F32(self.0 + rhs.0)
    }

    fn sub_val(self, rhs: Self) -> Self {
        F32(self.0 - rhs.0)
    }

    fn mul_val(self, rhs: Self) -> Self {
        F32(self.0 * rhs.0)
    }

    fn div_val(self, rhs: Self) -> Self {
        F32(self.0 / rhs.0)
    }

    fn neg_val(self) -> Self {
        F32(-self.0)
    }

    fn lemma_element_model(self, _other: Self) {
    }

    fn add(self, rhs: Self) -> Self {
        F32(self.0 + rhs.0)
    }

    fn sub(self, rhs: Self) -> Self {
        F32(self.0 - rhs.0)
    }

    fn mul(self, rhs: Self) -> Self {
        F32(self.0 * rhs.0)
    }

    fn div(self, rhs: Self) -> Self {
        F32(self.0 / rhs.0)
    }

    fn neg(self) -> Self {
        F32(-self.0)
    }

    fn lt(self, rhs: Self) -> bool {
        self.0 < rhs.0
    }

    fn eq_val(self, rhs: Self) -> bool {
        self.0 == rhs.0
    }
}

impl FloatElement for F32 {
    fn sqrt_val(self) -> Self {
        F32(self.0.sqrt())
    }

    fn acos_val(self) -> Self {
        F32(self.0.acos())
    }

    fn sin_val(self) -> Self {
        F32(self.0.sin())
    }

    fn cos_val(self) -> Self {
        F32(self.0.cos())
    }

    fn lemma_total() {
    }

    fn sqrt(self) -> Self {
        F32(self.0.sqrt())
    }

    fn acos(self) -> Self {
        F32(self.0.acos())
    }

    fn sin(self) -> Self {
        F32(self.0.sin())
    }

    fn cos(self) -> Self {
        F32(self.0.cos())
    }

    fn div_total(self, rhs: Self) -> Self {
        F32(self.0 / rhs.0)
    }
}

#[derive(Debug, Clone, Copy, PartialEq, Default)]
struct F64(f64);

impl Zero for F64 {
    fn zero_spec() -> Self {
        F64(0.0)
    }

    fn zero() -> Self {
        F64(0.0)
    }

    fn is_zero(&self) -> bool {
        self.0 == 0.0
    }
}

impl One for F64 {
    fn one_spec() -> Self {
        F64(1.0)
    }

    fn one() -> Self {
        F64(1.0)
    }
}

impl VectorElement for F64 {
    // The model functions below are never run; they name the values the
    // operations return. The integer model is not exact for a float.
    fn obeys_model() -> bool {
        false
    }

    fn add_val(self, rhs: Self) -> Self {
        F64(self.0 + rhs.0)
    }

    fn sub_val(self, rhs: Self) -> Self {
        F64(self.0 - rhs.0)
    }

    fn mul_val(self, rhs: Self) -> Self {
        F64(self.0 * rhs.0)
    }

    fn div_val(self, rhs: Self) -> Self {
        F64(self.0 / rhs.0)
    }

    fn neg_val(self) -> Self {
        F64(-self.0)
    }

    fn lemma_element_model(self, _other: Self) {
    }

    fn add(self, rhs: Self) -> Self {
        F64(self.0 + rhs.0)
    }

    fn sub(self, rhs: Self) -> Self {
        F64(self.0 - rhs.0)
    }

    fn mul(self, rhs: Self) -> Self {
        F64(self.0 * rhs.0)
    }

    fn div(self, rhs: Self) -> Self {
        F64(self.0 / rhs.0)
    }

    fn neg(self) -> Self {
        F64(-self.0)
    }

    fn lt(self, rhs: Self) -> bool {
        self.0 < rhs.0
    }

    fn eq_val(self, rhs: Self) -> bool {
        self.0 == rhs.0
    }
}

impl FloatElement for F64 {
    fn sqrt_val(self) -> Self {
        F64(self.0.sqrt())
    }

    fn acos_val(self) -> Self {
        F64(self.0.acos())
    }

    fn sin_val(self) -> Self {
        F64(self.0.sin())
    }

    fn cos_val(self) -> Self {
        F64(self.0.cos())
    }

    fn lemma_total() {
    }

    fn sqrt(self) -> Self {
        F64(self.0.sqrt())
    }

    fn acos(self) -> Self {
        F64(self.0.acos())
    }

    fn sin(self) -> Self {
        F64(self.0.sin())
    }

    fn cos(self) -> Self {
        F64(self.0.cos())
    }

    fn div_total(self, rhs: Self) -> Self {
        F64(self.0 / rhs.0)
    }
}

#[test]
fn vector2_length() {
    let v = pyr::math::Vector2 { x: F64(10.0), y: F64(20.0) };
    assert_eq!(v.length(), F64((10.0_f64 * 10.0 + 20.0 * 20.0).sqrt()));
}

#[test]
fn array_wrapper_length() {
    let v = ArrayWrapper::<F32, 5>::new(F32(1.0), F32(2.0), F32(3.0), F32(4.0), F32(5.0));
    assert_eq!(
        v.length(),
        F32((1.0_f32 * 1.0 + 2.0 * 2.0 + 3.0 * 3.0 + 4.0 * 4.0 + 5.0 * 5.0).sqrt())
    );
}

#[test]
fn normalized() {
    let v = ArrayWrapper::<F32, 5>::new(F32(1.0), F32(2.0), F32(3.0), F32(4.0), F32(5.0));
    let n = v.normalized();
    let one_over_len = 1.0 / v.length().0;
    assert_ne!((n.length_squared().0 - 1.0).abs(), 0.00001);
    assert_ne!((v.get(0).0 - 1.0 * one_over_len).abs(), 0.00001);
    assert_ne!((v.get(1).0 - 2.0 * one_over_len).abs(), 0.00001);
    assert_ne!((v.get(2).0 - 3.0 * one_over_len).abs(), 0.00001);
    assert_ne!((v.get(3).0 - 4.0 * one_over_len).abs(), 0.00001);
    assert_ne!((v.get(4).0 - 5.0 * one_over_len).abs(), 0.00001);
}

#[test]
fn ops_div() {
    let v1 = Vector::<F64, 3>::new(F64(9.0), F64(10.0), F64(3.0));
    let v2 = Vector::<F64, 3>::new(F64(3.0), F64(2.0), F64(1.5));
    assert_eq!(v1 / v2, [F64(3.0), F64(5.0), F64(2.0)].into());
}

#[test]
fn ops_div_assign() {
    let v1 = Vector::<F64, 3>::new(F64(9.0), F64(10.0), F64(3.0));
    let v2 = Vector::<F64, 3>::new(F64(3.0), F64(2.0), F64(1.5));
    let mut v = v1;
    v.div_assign(v2);
    assert_eq!(v, v1 / v2);
}

#[test]
fn mul_scalar() {
    let v = Vector::<F64, 3>::new(F64(1.0), F64(2.0), F64(3.0));
    assert_eq!(v * F64(2.0), [F64(2.0), F64(4.0), F64(6.0)].into());
}

#[test]
fn div_scalar() {
    let v = Vector::<F64, 3>::new(F64(1.0), F64(2.0), F64(3.0));
    assert_eq!(v / F64(2.0), [F64(0.5), F64(1.0), F64(1.5)].into());
}

#[test]
fn mul_assgin_scalar() {
    let mut v = Vector::<F64, 3>::new(F64(1.0), F64(2.0), F64(3.0));
    v.mul_scalar_assign(F64(2.0));
    assert_eq!(v, [F64(2.0), F64(4.0), F64(6.0)].into());
}

#[test]
fn div_assgin_scalar() {
    let mut v = Vector::<F64, 3>::new(F64(1.0), F64(2.0), F64(3.0));
    v.div_scalar_assign(F64(2.0));
    assert_eq!(v, [F64(0.5), F64(1.0), F64(1.5)].into());
}

#[test]
fn vector4_xyz() {
    let v = Vector4::new(F32(1.0), F32(2.0), F32(3.0), F32(4.0));
    let xyz = v.xyz();
    assert_eq!(xyz, Vector3::new(F32(1.0), F32(2.0), F32(3.0)));
}

#[test]
fn length_nonneg_and_zero_only_at_zero() {
    let v = Vector3::new(F64(3.0), F64(-4.0), F64(12.0));
    assert!(v.length().0 >= 0.0);
    assert_eq!(v.length(), F64(13.0));
    let z = Vector3::<F64>::zero();
    assert_eq!(z.length(), F64(0.0));
    assert!(v.length().0 != 0.0);
}

#[test]
fn normalized_unit_length() {
    let v = Vector3::new(F64(3.0), F64(4.0), F64(12.0));
    let n = v.normalized();
    assert!((n.length().0 - 1.0).abs() < 1e-12);
    let z = Vector3::<F64>::zero();
    assert_eq!(z.normalized(), Vector3::<F64>::zero());
}

#[test]
fn scale_then_divide_restores_float() {
    let v = Vector3::new(F64(1.25), F64(-2.5), F64(3.75));
    let s = F64(4.0);
    let r = v.mul_scalar(s).div_scalar(s);
    assert!((r.x.0 - v.x.0).abs() < 1e-12);
    assert!((r.y.0 - v.y.0).abs() < 1e-12);
    assert!((r.z.0 - v.z.0).abs() < 1e-12);
}

#[test]
fn reflect_about_unit_y() {
    let mut deg: i32 = 1;
    while deg <= 180 {
        let theta = (deg as f64).to_radians();
        let v = Vector3::new(F64(theta.cos()), F64(-theta.sin()), F64(0.0));
        let r = v.reflect(Vector3::unit_y());
        assert!((r.x.0 - theta.cos()).abs() < 1e-12);
        assert!((r.y.0 - theta.sin()).abs() < 1e-12);
        assert!(r.z.0.abs() < 1e-12);
        deg += 1;
    }
}

#[test]
fn angle_between_axes() {
    let a = Vector3::<F64>::unit_x();
    let b = Vector3::<F64>::unit_y();
    let half_pi = std::f64::consts::FRAC_PI_2;
    assert!((a.angle(b).0 - half_pi).abs() < 1e-12);
    let s = a.signed_angle(b, Vector3::<F64>::unit_z());
    assert!((s.0 - half_pi).abs() < 1e-12);
    let s2 = b.signed_angle(a, Vector3::<F64>::unit_z());
    assert!((s2.0 + half_pi).abs() < 1e-12);
}

#[test]
fn vector2_angle_and_signed_angle() {
    let a = pyr::math::Vector2::<F64>::unit_x();
    let b = pyr::math::Vector2::<F64>::unit_y();
    let half_pi = std::f64::consts::FRAC_PI_2;
    assert!((a.angle(b).0 - half_pi).abs() < 1e-12);
    assert!((a.signed_angle(b).0 - half_pi).abs() < 1e-12);
    assert!((b.signed_angle(a).0 + half_pi).abs() < 1e-12);
}

#[test]
fn rotation_matrix_entries() {
    let theta = 0.5_f64;
    let m = Matrix::<F64, 2, 2>::rotate(F64(theta));
    assert_eq!(m.elements[0][0], F64(theta.cos()));
    assert_eq!(m.elements[0][1], F64(theta.sin()));
    assert_eq!(m.elements[1][0], F64(-theta.sin()));
    assert_eq!(m.elements[1][1], F64(theta.cos()));
}

#[test]
fn distance_free_function() {
    let a = Vector3::new(F64(1.0), F64(2.0), F64(3.0));
    let b = Vector3::new(F64(4.0), F64(6.0), F64(15.0));
    assert_eq!(pyr::math::vector::prelude::distance(a, b), F64(13.0));
    assert_eq!(a.distance(b), F64(13.0));
}
