use wasmlib::Vec3;

#[test]
fn vec3_add_is_componentwise() {
    let a = Vec3 { x: 1, y: 2, z: 3 };
    let b = Vec3 { x: 10, y: -20, z: 30 };
    let c = a + b;
    assert_eq!(c, Vec3 { x: 11, y: -18, z: 33 });
}

#[test]
fn vec3_add_extreme_components() {
    let a = Vec3 { x: i32::MAX - 1, y: i32::MIN + 1, z: 0 };
    let b = Vec3 { x: 1, y: -1, z: 0 };
    let c = a + b;
    assert_eq!(c.x, i32::MAX);
    assert_eq!(c.y, i32::MIN);
    assert_eq!(c.z, 0);
}

#[test]
fn vec3_add_commutes() {
    let a = Vec3 { x: 4, y: -7, z: 100 };
    let b = Vec3 { x: -3, y: 9, z: 5 };
    assert_eq!(a + b, b + a);
}

#[test]
fn vec3_add_associates() {
    let a = Vec3 { x: 1, y: 2, z: 3 };
    let b = Vec3 { x: 40, y: 50, z: 60 };
    let c = Vec3 { x: -700, y: 800, z: -900 };
    assert_eq!((a + b) + c, a + (b + c));
    assert_eq!((a + b) + c, Vec3 { x: -659, y: 852, z: -837 });
}

#[test]
fn vec3_components_round_trip() {
    let v = Vec3 { x: 7i64, y: -8i64, z: 9i64 };
    assert_eq!(v.x, 7);
    assert_eq!(v.y, -8);
    assert_eq!(v.z, 9);
    let w = v;
    assert_eq!(w, v);
}

#[test]
fn vec3_add_other_component_type() {
    let a = Vec3 { x: 200u8, y: 0u8, z: 1u8 };
    let b = Vec3 { x: 55u8, y: 0u8, z: 2u8 };
    assert_eq!(a + b, Vec3 { x: 255u8, y: 0u8, z: 3u8 });
}

#[test]
fn vec3_add_floats() {
    let a = Vec3 { x: 1.5f64, y: -2.0f64, z: 0.25f64 };
    let b = Vec3 { x: 0.5f64, y: 2.0f64, z: 0.75f64 };
    let c = a + b;
    assert_eq!(c.x, 2.0);
    assert_eq!(c.y, 0.0);
    assert_eq!(c.z, 1.0);
}
