use numeric_tuples::{Normal3, Number, Point3, Vector3, Vector3i32};

#[test]
fn vector3_basics() {
    let v = Vector3::<f32>::new(-1.0, 10.0, 2.0);
    assert_ne!(v, Vector3::<f32>::new(-1.0, 100.0, 2.0));
    assert_eq!(Vector3::<f32>::new(-2.0, 20.0, 4.0), v + v);
    assert_eq!(Vector3::<f32>::new(0.0, 0.0, 0.0), v - v);
    assert_eq!(Vector3::<f32>::new(-2.0, 20.0, 4.0), v * 2.0);
    assert_eq!(Vector3::<f32>::new(-0.5, 5.0, 1.0), v / 2.0);
    assert_eq!(v, v.permute(&[0, 1, 2]));
    assert_eq!(Vector3::<f32>::new(10.0, -1.0, 2.0), v.permute(&[1, 0, 2]));
    assert_eq!(Vector3::<f32>::new(2.0, -1.0, 10.0), v.permute(&[2, 0, 1]));
    assert_eq!(Vector3::<f32>::new(10.0, 10.0, -1.0), v.permute(&[1, 1, 0]));
}

#[test]
fn vector3_basics_integer() {
    let v = Vector3i32::new(-1, 10, 2);
    assert_eq!(Some(v), Vector3::<i64>::new(-1, 10, 2).cast::<i32>());
    assert_ne!(v, Vector3i32::new(-1, 100, 2));
    assert_eq!(Vector3i32::new(-2, 20, 4), v + v);
    assert_eq!(Vector3i32::new(0, 0, 0), v - v);
    assert_eq!(Vector3i32::new(-2, 20, 4), v * 2);
    assert_eq!(Vector3i32::new(-2, 20, 4), 2 * v);
    assert_eq!(Vector3i32::new(0, 5, 1), v / 2);
    assert_eq!(Vector3i32::new(1, 10, 2), v.abs());
    assert_eq!(Vector3i32::new(-20, 10, 1), v.min(Vector3i32::new(-20, 20, 1)));
    assert_eq!(Vector3i32::new(-1, 20, 2), v.max(Vector3i32::new(-20, 20, 0)));
    assert_eq!(-1, v.min_component_value());
    assert_eq!(-10, (-v).min_component_value());
    assert_eq!(10, v.max_component_value());
    assert_eq!(1, (-v).max_component_value());
    assert_eq!(0, v.min_component_index());
    assert_eq!(1, (-v).min_component_index());
    assert_eq!(1, v.max_component_index());
    assert_eq!(0, (-v).max_component_index());
    assert_eq!(v, v.permute(&[0, 1, 2]));
    assert_eq!(Vector3i32::new(10, -1, 2), v.permute(&[1, 0, 2]));
    assert_eq!(Vector3i32::new(2, -1, 10), v.permute(&[2, 0, 1]));
    assert_eq!(Vector3i32::new(10, 10, -1), v.permute(&[1, 1, 0]));
}

#[test]
fn vector3_example_scenario() {
    let v = Vector3i32::new(-1, 10, 2);
    assert_eq!(Vector3i32::new(-2, 20, 4), v + v);
    assert_eq!(Vector3i32::new(1, 10, 2), v.abs());
    assert_eq!(-1, v.min_component_value());
    assert_eq!(1, v.max_component_index());
    assert_eq!(Vector3i32::new(2, -1, 10), v.permute(&[2, 0, 1]));
}

#[test]
fn vector3_float_example_scenario() {
    let v = Vector3::<f32>::new(-1.0, 10.0, 2.0);
    assert_eq!(Vector3::<f32>::new(-2.0, 20.0, 4.0), v + v);
    assert_eq!(Vector3::<f32>::new(2.0, -1.0, 10.0), v.permute(&[2, 0, 1]));
    assert_eq!(-1.0, v[0]);
    assert_eq!(2.0, v.get(2));
}

#[test]
fn vector3_tie_break_earliest_index() {
    assert_eq!(0, Vector3i32::new(5, 5, 1).max_component_index());
    assert_eq!(0, Vector3i32::new(5, 1, 5).max_component_index());
    assert_eq!(1, Vector3i32::new(1, 5, 5).max_component_index());
    assert_eq!(0, Vector3i32::new(5, 5, 5).max_component_index());
    assert_eq!(0, Vector3i32::new(1, 1, 5).min_component_index());
    assert_eq!(0, Vector3i32::new(1, 5, 1).min_component_index());
    assert_eq!(1, Vector3i32::new(5, 1, 1).min_component_index());
    assert_eq!(0, Vector3i32::new(2, 2, 2).min_component_index());
}

#[test]
fn vector3_index_consistency() {
    let values = [-3, 0, 0, 7, 7, i32::MIN, i32::MAX];
    for &a in values.iter() {
        for &b in values.iter() {
            for &c in values.iter() {
                let v = Vector3i32::new(a, b, c);
                assert_eq!(v[v.min_component_index()], v.min_component_value());
                assert_eq!(v[v.max_component_index()], v.max_component_value());
                assert_eq!(Ord::min(Ord::min(a, b), c), v.min_component_value());
                assert_eq!(Ord::max(Ord::max(a, b), c), v.max_component_value());
            }
        }
    }
}

#[test]
fn vector3_arithmetic_identities() {
    let v = Vector3i32::new(-7, 0, 123);
    let zero = Vector3i32::zero();
    assert_eq!(Vector3i32::new(0, 0, 0), zero);
    assert_eq!(v, v + zero);
    assert_eq!(zero, v - v);
    assert_eq!(v, v * 1);
    assert_eq!(1 * v, v * 1);
    assert_eq!(3 * v, v * 3);
    let w = Vector3::<u8>::new(1, 2, 255);
    assert_eq!(w, w + Vector3::<u8>::zero());
    assert_eq!(Vector3::<u8>::zero(), w - w);
    assert_eq!(1u8 * w, w * 1u8);
}

#[test]
fn vector3_permute_identity_and_components() {
    let v = Vector3i32::new(4, -5, 6);
    assert_eq!(v, v.permute(&[0, 1, 2]));
    for p0 in 0..3usize {
        for p1 in 0..3usize {
            for p2 in 0..3usize {
                let p = [p0, p1, p2];
                let w = v.permute(&p);
                for i in 0..3usize {
                    assert_eq!(w[i], v[p[i]]);
                }
            }
        }
    }
}

#[test]
fn vector3_index_get_set() {
    let mut v = Vector3i32::new(1, 2, 3);
    assert_eq!(1, v[0]);
    assert_eq!(2, v[1]);
    assert_eq!(3, v[2]);
    assert_eq!(3, v.get(2));
    v.set(1, 20);
    assert_eq!(Vector3i32::new(1, 20, 3), v);
    v.set(2, -30);
    assert_eq!(Vector3i32::new(1, 20, -30), v);
    v.set(0, 0);
    assert_eq!(Vector3i32::new(0, 20, -30), v);
}

#[test]
fn vector3_negation_and_in_place_operations() {
    let mut v = Vector3i32::new(1, -2, 3);
    assert_eq!(Vector3i32::new(-1, 2, -3), -v);
    v.add_assign(Vector3i32::new(10, 10, 10));
    assert_eq!(Vector3i32::new(11, 8, 13), v);
    v.sub_assign(Vector3i32::new(1, 1, 1));
    assert_eq!(Vector3i32::new(10, 7, 12), v);
    v.mul_assign(3);
    assert_eq!(Vector3i32::new(30, 21, 36), v);
    v.div_assign(4);
    assert_eq!(Vector3i32::new(7, 5, 9), v);
    let mut n = Vector3i32::new(-7, 7, -1);
    n.div_assign(2);
    assert_eq!(Vector3i32::new(-3, 3, 0), n);
}

#[test]
fn vector3_products_and_interpolation() {
    let v = Vector3i32::new(2, -3, 4);
    assert_eq!(-24, v.h_prod());
    assert_eq!(
        Vector3i32::new(2 * 5 + 1, -3 * 6 + 2, 4 * -7 + 3),
        v.mul_add(Vector3i32::new(5, 6, -7), Vector3i32::new(1, 2, 3))
    );
    let w = Vector3i32::new(10, 20, 30);
    assert_eq!(v, v.lerp(w, 0));
    assert_eq!(w, v.lerp(w, 1));
    assert_eq!(Vector3i32::new(18, 43, 56), v.lerp(w, 2));
    assert_eq!(Vector3i32::new(-6, -26, -22), v.lerp(w, -1));
}

#[test]
fn vector3_has_nan_is_false_for_integers() {
    assert!(!Vector3i32::new(i32::MIN, 0, i32::MAX).has_nan());
    assert!(!Vector3::<u64>::new(0, 1, 2).has_nan());
}

#[test]
fn vector3_casts() {
    let v = Vector3i32::new(-1, 10, 2);
    let wide = v.cast::<i64>().unwrap();
    assert_eq!(Vector3::<i64>::new(-1, 10, 2), wide);
    assert_eq!(Some(v), wide.cast::<i32>());
    assert_eq!(None, v.cast::<u8>());
    assert_eq!(None, Vector3::<i64>::new(0, 1 << 40, 0).cast::<i32>());
    assert_eq!(Some(Vector3::<u8>::new(255, 0, 7)), Vector3::<u16>::new(255, 0, 7).cast::<u8>());
    assert_eq!(None, Vector3::<u16>::new(256, 0, 7).cast::<u8>());
    assert_eq!(
        Some(Vector3::<i128>::new(i128::MIN, 0, i128::MAX)),
        Vector3::<i128>::new(i128::MIN, 0, i128::MAX).cast::<i128>()
    );
    assert_eq!(
        Some(Vector3::<u128>::new(u128::MAX, 0, 1)),
        Vector3::<u128>::new(u128::MAX, 0, 1).cast::<u128>()
    );
    assert_eq!(None, Vector3::<u128>::new(u128::MAX, 0, 1).cast::<i128>());
    assert_eq!(Some(Vector3::<i8>::new(-128, 127, 0)), Vector3::<i64>::new(-128, 127, 0).cast::<i8>());
    assert_eq!(None, Vector3::<i64>::new(-129, 0, 0).cast::<i8>());
    assert_eq!(Vector3::<u32>::new(1, 0, 1), Vector3::<bool>::new(true, false, true).to_number::<u32>());
}

#[test]
fn vector3_cast_round_trip() {
    let v = Vector3i32::new(i32::MIN, 0, i32::MAX);
    assert_eq!(Some(v), v.cast::<i64>().unwrap().cast::<i32>());
    let small = Vector3::<u16>::new(0, 17, 255);
    assert_eq!(Some(small), small.cast::<u8>().unwrap().cast::<u16>());
    let s = Vector3::<i16>::new(-5, 0, 5);
    assert_eq!(Some(s), s.cast::<isize>().unwrap().cast::<i16>());
}

#[test]
fn vector3_from_point_and_normal() {
    let p = Point3::<i32>::new(1, 2, 3);
    let n = Normal3::<i32>::new(0, 0, 1);
    assert_eq!(Vector3i32::new(1, 2, 3), Vector3::from(p));
    assert_eq!(Vector3i32::new(0, 0, 1), Vector3::from(n));
    let q: Vector3i32 = p.into();
    assert_eq!(Vector3i32::new(1, 2, 3), q);
}

#[test]
fn vector3_number_capabilities() {
    assert_eq!(1, <i32 as Number>::one());
    assert_eq!(0, <u8 as Number>::zero());
    assert_eq!(i16::MIN, <i16 as Number>::min_value());
    assert_eq!(u64::MAX, <u64 as Number>::max_value());
    assert!(!Number::is_nan(&5i32));
    assert_eq!(-3, Number::min(-3i32, 4));
    assert_eq!(4, Number::max(-3i32, 4));
}

#[test]
fn vector3_text() {
    assert_eq!("Vector3(-1, 10, 2)", Vector3i32::new(-1, 10, 2).to_string());
    assert_eq!("Point3(0, 0, 0)", Point3::<u8>::new(0, 0, 0).to_string());
    assert_eq!(
        "Normal3(-128, 127, 100)",
        Normal3::<i8>::new(-128, 127, 100).to_string()
    );
    assert_eq!(
        "Vector3(-170141183460469231731687303715884105728, 0, 9)",
        Vector3::<i128>::new(i128::MIN, 0, 9).to_string()
    );
    assert_eq!(
        "Vector3(340282366920938463463374607431768211455, 10, 1000)",
        Vector3::<u128>::new(u128::MAX, 10, 1000).to_string()
    );
}
