use numeric_tuples::{Normal2, Point2, Vector2, Vector2i32};

#[test]
fn vector2_basics() {
    let v = Vector2::<f32>::new(-1.0, 10.0);
    assert_ne!(v, Vector2::<f32>::new(-1.0, 100.0));
    assert_eq!(Vector2::<f32>::new(-2.0, 20.0), v + v);
    assert_eq!(Vector2::<f32>::new(0.0, 0.0), v - v);
    assert_eq!(Vector2::<f32>::new(-2.0, 20.0), v * 2.0);
    assert_eq!(Vector2::<f32>::new(-0.5, 5.0), v / 2.0);
    assert_eq!(v, v.permute(&[0, 1]));
    assert_eq!(Vector2::<f32>::new(10.0, -1.0), v.permute(&[1, 0]));
    assert_eq!(Vector2::<f32>::new(10.0, 10.0), v.permute(&[1, 1]));
}

#[test]
fn vector2_basics_integer() {
    let v = Vector2i32::new(-1, 10);
    assert_eq!(Some(v), Vector2::<i64>::new(-1, 10).cast::<i32>());
    assert_ne!(v, Vector2i32::new(-1, 100));
    assert_eq!(Vector2i32::new(-2, 20), v + v);
    assert_eq!(Vector2i32::new(0, 0), v - v);
    assert_eq!(Vector2i32::new(-2, 20), v * 2);
    assert_eq!(Vector2i32::new(-2, 20), 2 * v);
    assert_eq!(Vector2i32::new(0, 5), v / 2);
    assert_eq!(Vector2i32::new(1, 10), v.abs());
    assert_eq!(Vector2i32::new(-20, 10), v.min(Vector2i32::new(-20, 20)));
    assert_eq!(Vector2i32::new(-1, 20), v.max(Vector2i32::new(-20, 20)));
    assert_eq!(-1, v.min_component_value());
    assert_eq!(-10, (-v).min_component_value());
    assert_eq!(10, v.max_component_value());
    assert_eq!(1, (-v).max_component_value());
    assert_eq!(0, v.min_component_index());
    assert_eq!(1, (-v).min_component_index());
    assert_eq!(1, v.max_component_index());
    assert_eq!(0, (-v).max_component_index());
    assert_eq!(v, v.permute(&[0, 1]));
    assert_eq!(Vector2i32::new(10, -1), v.permute(&[1, 0]));
    assert_eq!(Vector2i32::new(10, 10), v.permute(&[1, 1]));
}

#[test]
fn vector2_tie_break_earliest_index() {
    assert_eq!(0, Vector2i32::new(5, 5).max_component_index());
    assert_eq!(0, Vector2i32::new(5, 5).min_component_index());
    assert_eq!(1, Vector2i32::new(1, 5).max_component_index());
    assert_eq!(1, Vector2i32::new(5, 1).min_component_index());
}

#[test]
fn vector2_index_consistency() {
    let values = [-3, 0, 0, 7, i32::MIN, i32::MAX];
    for &a in values.iter() {
        for &b in values.iter() {
            let v = Vector2i32::new(a, b);
            assert_eq!(v[v.min_component_index()], v.min_component_value());
            assert_eq!(v[v.max_component_index()], v.max_component_value());
        }
    }
}

#[test]
fn vector2_arithmetic_identities() {
    let v = Vector2i32::new(-7, 123);
    let zero = Vector2i32::zero();
    assert_eq!(Vector2i32::new(0, 0), zero);
    assert_eq!(v, v + zero);
    assert_eq!(zero, v - v);
    assert_eq!(v, v * 1);
    assert_eq!(1 * v, v * 1);
    assert_eq!(-4 * v, v * -4);
}

#[test]
fn vector2_permute_components() {
    let v = Vector2i32::new(4, -5);
    for p0 in 0..2usize {
        for p1 in 0..2usize {
            let p = [p0, p1];
            let w = v.permute(&p);
            assert_eq!(w[0], v[p0]);
            assert_eq!(w[1], v[p1]);
        }
    }
}

#[test]
fn vector2_get_set_and_in_place_operations() {
    let mut v = Vector2i32::new(1, 2);
    assert_eq!(2, v.get(1));
    v.set(0, 5);
    assert_eq!(Vector2i32::new(5, 2), v);
    v.add_assign(Vector2i32::new(1, 1));
    assert_eq!(Vector2i32::new(6, 3), v);
    v.sub_assign(Vector2i32::new(2, 2));
    assert_eq!(Vector2i32::new(4, 1), v);
    v.mul_assign(-2);
    assert_eq!(Vector2i32::new(-8, -2), v);
    v.div_assign(2);
    assert_eq!(Vector2i32::new(-4, -1), v);
}

#[test]
fn vector2_products_interpolation_and_casts() {
    let v = Vector2i32::new(-3, 4);
    assert_eq!(-12, v.h_prod());
    assert_eq!(Vector2i32::new(-3 * 2 + 1, 4 * 3 - 1), v.mul_add(Vector2i32::new(2, 3), Vector2i32::new(1, -1)));
    assert_eq!(Vector2i32::new(17, 16), v.lerp(Vector2i32::new(7, 10), 2));
    assert!(!v.has_nan());
    assert_eq!(None, v.cast::<u32>());
    assert_eq!(Some(Vector2::<i8>::new(-3, 4)), v.cast::<i8>());
    assert_eq!(Some(v), v.cast::<i8>().unwrap().cast::<i32>());
    assert_eq!(Vector2::<i16>::new(0, 1), Vector2::<bool>::new(false, true).to_number::<i16>());
}

#[test]
fn vector2_from_point_and_normal() {
    assert_eq!(Vector2i32::new(1, 2), Vector2::from(Point2::<i32>::new(1, 2)));
    assert_eq!(Vector2i32::new(0, 1), Vector2::from(Normal2::<i32>::new(0, 1)));
}

#[test]
fn vector2_text() {
    assert_eq!("Vector2(-1, 10)", Vector2i32::new(-1, 10).to_string());
    assert_eq!("Point2(7, 90)", Point2::<u64>::new(7, 90).to_string());
    assert_eq!("Normal2(0, -1)", Normal2::<i16>::new(0, -1).to_string());
}
