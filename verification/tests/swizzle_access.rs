use pyr::math::{Vector1, Vector2, Vector3, Vector4};

#[test]
fn x() {
    let v = Vector1::new(1);
    assert_eq!(v.x(), 1);

    let v = Vector2::new(1, 2);
    assert_eq!(v.x(), 1);

    let v = Vector3::new(1, 2, 3);
    assert_eq!(v.x(), 1);

    let v = Vector4::new(1, 2, 3, 4);
    assert_eq!(v.x(), 1);
}

#[test]
fn xx() {
    let v = Vector1::new(1);
    assert_eq!(v.xx(), [1, 1].into());

    let v = Vector2::new(1, 2);
    assert_eq!(v.xx(), [1, 1].into());

    let v = Vector3::new(1, 2, 3);
    assert_eq!(v.xx(), [1, 1].into());

    let v = Vector4::new(1, 2, 3, 4);
    assert_eq!(v.xx(), [1, 1].into());
}

#[test]
fn xy() {
    let v = Vector2::new(1, 2);
    assert_eq!(v.xy(), [1, 2].into());

    let v = Vector3::new(1, 2, 3);
    assert_eq!(v.xy(), [1, 2].into());

    let v = Vector4::new(1, 2, 3, 4);
    assert_eq!(v.xy(), [1, 2].into());
}

#[test]
fn yx() {
    let v = Vector2::new(1, 2);
    assert_eq!(v.yx(), [2, 1].into());

    let v = Vector3::new(1, 2, 3);
    assert_eq!(v.yx(), [2, 1].into());

    let v = Vector4::new(1, 2, 3, 4);
    assert_eq!(v.yx(), [2, 1].into());
}

#[test]
fn xyzw_accessor_xyz() {
    let v = Vector3::new(1, 2, 3);
    assert_eq!(v.xyz(), [1, 2, 3].into());

    let v = Vector4::new(1, 2, 3, 4);
    assert_eq!(v.xyz(), [1, 2, 3].into());
}

#[test]
fn xzy() {
    let v = Vector3::new(1, 2, 3);
    assert_eq!(v.xzy(), [1, 3, 2].into());

    let v = Vector4::new(1, 2, 3, 4);
    assert_eq!(v.xzy(), [1, 3, 2].into());
}

#[test]
fn xyzw() {
    let v = Vector4::new(1, 2, 3, 4);
    assert_eq!(v.xyzw(), [1, 2, 3, 4].into());
}

#[test]
fn wzyx() {
    let v = Vector4::new(1, 2, 3, 4);
    assert_eq!(v.wzyx(), [4, 3, 2, 1].into());
}

#[test]
fn single_component_accessors() {
    let v = Vector4::new(1, 2, 3, 4);
    assert_eq!(v.y(), 2);
    assert_eq!(v.z(), 3);
    assert_eq!(v.w(), 4);
    let v = Vector3::new(1, 2, 3);
    assert_eq!(v.y(), 2);
    assert_eq!(v.z(), 3);
    let v = Vector2::new(1, 2);
    assert_eq!(v.y(), 2);
}
