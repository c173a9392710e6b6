use vectors::Vector2;
use vectors::Vector3;
use vectors::Vector4;

#[test]
fn array_round_trip_all_arities() {
    let v2 = Vector2::new(7, -9);
    assert_eq!(Vector2::from_array(v2.to_array()), v2);
    let v3 = Vector3::new(7, -9, 11);
    assert_eq!(Vector3::from_array(v3.to_array()), v3);
    let v4 = Vector4::new(7, -9, 11, -13);
    assert_eq!(Vector4::from_array(v4.to_array()), v4);
}

#[test]
fn array_round_trip_extreme_components() {
    let v2 = Vector2::new(i64::MAX, i64::MIN);
    assert_eq!(Vector2::from_array(v2.to_array()), v2);
    assert_eq!(v2.to_array(), [i64::MAX, i64::MIN]);
}

#[test]
fn widen_then_narrow_is_identity() {
    let v2 = Vector2::new(5, -6);
    assert_eq!(v2.as_vector3().as_vector2(), v2);
    assert_eq!(v2.as_vector4().as_vector2(), v2);
    let v3 = Vector3::new(5, -6, 7);
    assert_eq!(v3.as_vector4().as_vector3(), v3);
}

#[test]
fn narrow_then_widen_zeroes_new_components() {
    let v3 = Vector3::new(5, -6, 7);
    assert_eq!(v3.as_vector2().as_vector3(), Vector3::new(5, -6, 0));
    let v4 = Vector4::new(5, -6, 7, -8);
    assert_eq!(v4.as_vector2().as_vector4(), Vector4::new(5, -6, 0, 0));
    assert_eq!(v4.as_vector3().as_vector4(), Vector4::new(5, -6, 7, 0));
}

#[test]
fn vector2_widen_to_vector4_and_back() {
    let v = Vector2::new(1, 2);
    let v4 = v.as_vector4();
    assert_eq!(v4, Vector4::new(1, 2, 0, 0));
    assert_eq!(v4.as_vector2(), Vector2::new(1, 2));
}

#[test]
fn add_zero_is_identity() {
    let v2 = Vector2::new(3, -4);
    assert_eq!(v2.add(&Vector2::new(0, 0)), v2);
    let v3 = Vector3::new(3, -4, 5);
    assert_eq!(v3.add(&Vector3::default()), v3);
    let v4 = Vector4::new(3, -4, 5, -6);
    assert_eq!(v4.add(&Vector4::default()), v4);
}

#[test]
fn sub_self_is_zero() {
    let v2 = Vector2::new(3, -4);
    assert_eq!(v2.sub(&v2), Vector2::new(0, 0));
    let v3 = Vector3::new(3, -4, 5);
    assert_eq!(v3.sub(&v3), Vector3::default());
    let v4 = Vector4::new(3, -4, 5, -6);
    assert_eq!(v4.sub(&v4), Vector4::default());
}

#[test]
fn scale_distributes_over_addition() {
    let a2 = Vector2::new(2, -3);
    let b2 = Vector2::new(5, 7);
    assert_eq!(a2.add(&b2).mul(4), a2.mul(4).add(&b2.mul(4)));
    let a3 = Vector3::new(2, -3, 4);
    let b3 = Vector3::new(5, 7, -9);
    assert_eq!(a3.add(&b3).mul(4), a3.mul(4).add(&b3.mul(4)));
    let a4 = Vector4::new(2, -3, 4, -5);
    let b4 = Vector4::new(5, 7, -9, 11);
    assert_eq!(a4.add(&b4).mul(4), a4.mul(4).add(&b4.mul(4)));
}

#[test]
fn in_place_operators_match_plain_ones() {
    let a = Vector3::new(1, -2, 3);
    let b = Vector3::new(4, 5, -6);
    let mut added = a;
    added.add_assign(&b);
    assert_eq!(added, a.add(&b));
    let mut subbed = a;
    subbed.sub_assign(&b);
    assert_eq!(subbed, a.sub(&b));
    let mut scaled = a;
    scaled.mul_assign(-7);
    assert_eq!(scaled, a.mul(-7));
    let mut added2 = Vector2::new(1, -2);
    added2.add_assign(&Vector2::new(4, 5));
    assert_eq!(added2, Vector2::new(1, -2).add(&Vector2::new(4, 5)));
    let mut added4 = Vector4::new(1, -2, 3, -4);
    added4.add_assign(&Vector4::new(4, 5, -6, 7));
    assert_eq!(added4, Vector4::new(1, -2, 3, -4).add(&Vector4::new(4, 5, -6, 7)));
}

#[test]
fn dot_is_symmetric() {
    let a3 = Vector3::new(2, -3, 4);
    let b3 = Vector3::new(5, 7, -9);
    assert_eq!(a3.dot(&b3), b3.dot(&a3));
    let a4 = Vector4::new(2, -3, 4, -5);
    let b4 = Vector4::new(5, 7, -9, 11);
    assert_eq!(a4.dot(&b4), b4.dot(&a4));
}

#[test]
fn cross_anticommutes() {
    let a = Vector3::new(2, -3, 4);
    let b = Vector3::new(5, 7, -9);
    assert_eq!(a.cross(&b), b.cross(&a).mul(-1));
    assert_eq!(a.cross(&a), Vector3::default());
}

#[test]
fn default_is_zero_vector() {
    assert_eq!(Vector3::default(), Vector3::new(0, 0, 0));
    assert_eq!(Vector4::default(), Vector4::new(0, 0, 0, 0));
}

#[test]
fn scale_by_zero_and_negative_one() {
    let v = Vector3::new(2, -3, 4);
    assert_eq!(v.mul(0), Vector3::default());
    assert_eq!(v.mul(-1), Vector3::new(-2, 3, -4));
    assert_eq!(v.mul(-1).add(&v), Vector3::default());
}

#[test]
fn to_array_preserves_field_order() {
    assert_eq!(Vector2::new(1, 2).to_array(), [1, 2]);
    assert_eq!(Vector3::new(1, 2, 3).to_array(), [1, 2, 3]);
    assert_eq!(Vector4::new(1, 2, 3, 4).to_array(), [1, 2, 3, 4]);
}
