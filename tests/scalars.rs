use numeric_tuples::{Number, PartialPreOrd, Signed, Vector3};

#[test]
fn partial_pre_ord_on_integers() {
    assert_eq!(-3, PartialPreOrd::min(-3i64, 9));
    assert_eq!(9, PartialPreOrd::max(-3i64, 9));
    assert_eq!(0u8, PartialPreOrd::min(0u8, 255));
    assert_eq!(255u8, PartialPreOrd::max(0u8, 255));
    assert_eq!(7usize, PartialPreOrd::min(7usize, 7));
    assert!(PartialPreOrd::precedes(&1i8, &2));
    assert!(!PartialPreOrd::precedes(&2i8, &2));
}

#[test]
fn partial_pre_ord_on_bool() {
    assert!(!PartialPreOrd::min(true, false));
    assert!(!PartialPreOrd::min(false, true));
    assert!(PartialPreOrd::min(true, true));
    assert!(PartialPreOrd::max(true, false));
    assert!(PartialPreOrd::max(false, true));
    assert!(!PartialPreOrd::max(false, false));
    assert!(PartialPreOrd::precedes(&false, &true));
    assert!(!PartialPreOrd::precedes(&true, &false));
}

#[test]
fn signed_abs() {
    assert_eq!(5, Signed::abs(-5i8));
    assert_eq!(i8::MAX, Signed::abs(-i8::MAX));
    assert_eq!(0, Signed::abs(0i128));
    assert_eq!(7, Signed::abs(7isize));
}

#[test]
fn number_bounds_and_identities() {
    assert_eq!(i128::MIN, <i128 as Number>::min_value());
    assert_eq!(u128::MAX, <u128 as Number>::max_value());
    assert_eq!(1usize, <usize as Number>::one());
    assert_eq!(0isize, <isize as Number>::zero());
}

#[test]
fn number_sign_magnitude() {
    assert_eq!((true, 128), Number::to_sign_magnitude(i8::MIN));
    assert_eq!((false, 5), Number::to_sign_magnitude(5u16));
    assert_eq!((true, 1u128 << 127), Number::to_sign_magnitude(i128::MIN));
    assert_eq!(Some(i8::MIN), <i8 as Number>::from_sign_magnitude(true, 128));
    assert_eq!(None, <i8 as Number>::from_sign_magnitude(true, 129));
    assert_eq!(None, <i8 as Number>::from_sign_magnitude(false, 128));
    assert_eq!(Some(0u32), <u32 as Number>::from_sign_magnitude(true, 0));
    assert_eq!(None, <u32 as Number>::from_sign_magnitude(true, 1));
    assert_eq!(Some(i128::MIN), <i128 as Number>::from_sign_magnitude(true, 1u128 << 127));
}

#[test]
fn bool_tuple_reductions() {
    let v = Vector3::<bool>::new(true, false, true);
    assert!(!v.min_component_value());
    assert!(v.max_component_value());
    assert_eq!(1, v.min_component_index());
    assert_eq!(0, v.max_component_index());
    assert_eq!(
        Vector3::<bool>::new(false, false, true),
        v.min(Vector3::<bool>::new(false, true, true))
    );
}
