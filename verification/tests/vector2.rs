use vectors::Vector2;

#[test]
fn test_vector2_new() {
    let vector = Vector2::new(1, 2);
    assert_eq!(vector.x, 1);
    assert_eq!(vector.y, 2);
}

#[test]
fn vector2_test_from_array() {
    let vector = Vector2::from_array([1, 2]);
    assert_eq!(vector.x, 1);
    assert_eq!(vector.y, 2);
}

#[test]
fn test_vector2_as_vector3() {
    let vector = Vector2::new(1, 2);
    let vector3 = vector.as_vector3();
    assert_eq!(vector3.x, 1);
    assert_eq!(vector3.y, 2);
    assert_eq!(vector3.z, 0);
}

#[test]
fn test_vector2_as_vector4() {
    let vector = Vector2::new(1, 2);
    let vector4 = vector.as_vector4();
    assert_eq!(vector4.x, 1);
    assert_eq!(vector4.y, 2);
    assert_eq!(vector4.z, 0);
    assert_eq!(vector4.w, 0);
}

#[test]
fn test_vector2_add() {
    let vector = Vector2::new(1, 2);
    let vector2 = Vector2::new(3, 4);
    let vector3 = vector.add(&vector2);
    assert_eq!(vector3.x, 4);
    assert_eq!(vector3.y, 6);
}

#[test]
fn test_vector2_add_assign() {
    let mut vector = Vector2::new(1, 2);
    let vector2 = Vector2::new(3, 4);
    vector.add_assign(&vector2);
    assert_eq!(vector.x, 4);
    assert_eq!(vector.y, 6);
}

#[test]
fn test_vector2_sub() {
    let vector = Vector2::new(1, 2);
    let vector2 = Vector2::new(3, 4);
    let vector3 = vector.sub(&vector2);
    assert_eq!(vector3.x, -2);
    assert_eq!(vector3.y, -2);
}

#[test]
fn test_vector2_sub_assign() {
    let mut vector = Vector2::new(1, 2);
    let vector2 = Vector2::new(3, 4);
    vector.sub_assign(&vector2);
    assert_eq!(vector.x, -2);
    assert_eq!(vector.y, -2);
}

#[test]
fn test_vector2_mul() {
    let vector = Vector2::new(1, 2);
    let vector2 = vector.mul(2);
    assert_eq!(vector2.x, 2);
    assert_eq!(vector2.y, 4);
}

#[test]
fn test_vector2_mul_assign() {
    let mut vector = Vector2::new(1, 2);
    vector.mul_assign(2);
    assert_eq!(vector.x, 2);
    assert_eq!(vector.y, 4);
}
