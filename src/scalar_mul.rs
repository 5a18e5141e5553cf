use crate::geometry::Geometry;
use crate::tuple2::Tuple2;
use crate::tuple3::Tuple3;
use vstd::prelude::*;
use vstd::std_specs::ops::MulSpec;

verus! {

// Scalar-first multiplication, `s * v`, for each integer scalar: each
// component times `s`, defined exactly where `v * s` is.

impl<K: Geometry> core::ops::Mul<Tuple2<K, i8>> for i8 {
    type Output = Tuple2<K, i8>;

    fn mul(self, v: Tuple2<K, i8>) -> (r: Tuple2<K, i8>) {
        v * self
    }
}

impl<K: Geometry> vstd::std_specs::ops::MulSpecImpl<Tuple2<K, i8>> for i8 {
    open spec fn obeys_mul_spec() -> bool {
        true
    }

    open spec fn mul_req(self, v: Tuple2<K, i8>) -> bool {
        i8::MIN <= v.x * self <= i8::MAX && i8::MIN <= v.y * self <= i8::MAX
    }

    open spec fn mul_spec(self, v: Tuple2<K, i8>) -> Tuple2<K, i8> {
        Tuple2::spec_new((v.x * self) as i8, (v.y * self) as i8)
    }
}

impl<K: Geometry> core::ops::Mul<Tuple3<K, i8>> for i8 {
    type Output = Tuple3<K, i8>;

    fn mul(self, v: Tuple3<K, i8>) -> (r: Tuple3<K, i8>) {
        v * self
    }
}

impl<K: Geometry> vstd::std_specs::ops::MulSpecImpl<Tuple3<K, i8>> for i8 {
    open spec fn obeys_mul_spec() -> bool {
        true
    }

    open spec fn mul_req(self, v: Tuple3<K, i8>) -> bool {
        i8::MIN <= v.x * self <= i8::MAX && i8::MIN <= v.y * self <= i8::MAX && i8::MIN <= v.z * self <= i8::MAX
    }

    open spec fn mul_spec(self, v: Tuple3<K, i8>) -> Tuple3<K, i8> {
        Tuple3::spec_new((v.x * self) as i8, (v.y * self) as i8, (v.z * self) as i8)
    }
}

impl<K: Geometry> core::ops::Mul<Tuple2<K, i16>> for i16 {
    type Output = Tuple2<K, i16>;

    fn mul(self, v: Tuple2<K, i16>) -> (r: Tuple2<K, i16>) {
        v * self
    }
}

impl<K: Geometry> vstd::std_specs::ops::MulSpecImpl<Tuple2<K, i16>> for i16 {
    open spec fn obeys_mul_spec() -> bool {
        true
    }

    open spec fn mul_req(self, v: Tuple2<K, i16>) -> bool {
        i16::MIN <= v.x * self <= i16::MAX && i16::MIN <= v.y * self <= i16::MAX
    }

    open spec fn mul_spec(self, v: Tuple2<K, i16>) -> Tuple2<K, i16> {
        Tuple2::spec_new((v.x * self) as i16, (v.y * self) as i16)
    }
}

impl<K: Geometry> core::ops::Mul<Tuple3<K, i16>> for i16 {
    type Output = Tuple3<K, i16>;

    fn mul(self, v: Tuple3<K, i16>) -> (r: Tuple3<K, i16>) {
        v * self
    }
}

impl<K: Geometry> vstd::std_specs::ops::MulSpecImpl<Tuple3<K, i16>> for i16 {
    open spec fn obeys_mul_spec() -> bool {
        true
    }

    open spec fn mul_req(self, v: Tuple3<K, i16>) -> bool {
        i16::MIN <= v.x * self <= i16::MAX && i16::MIN <= v.y * self <= i16::MAX && i16::MIN <= v.z * self <= i16::MAX
    }

    open spec fn mul_spec(self, v: Tuple3<K, i16>) -> Tuple3<K, i16> {
        Tuple3::spec_new((v.x * self) as i16, (v.y * self) as i16, (v.z * self) as i16)
    }
}

impl<K: Geometry> core::ops::Mul<Tuple2<K, i32>> for i32 {
    type Output = Tuple2<K, i32>;

    fn mul(self, v: Tuple2<K, i32>) -> (r: Tuple2<K, i32>) {
        v * self
    }
}

impl<K: Geometry> vstd::std_specs::ops::MulSpecImpl<Tuple2<K, i32>> for i32 {
    open spec fn obeys_mul_spec() -> bool {
        true
    }

    open spec fn mul_req(self, v: Tuple2<K, i32>) -> bool {
        i32::MIN <= v.x * self <= i32::MAX && i32::MIN <= v.y * self <= i32::MAX
    }

    open spec fn mul_spec(self, v: Tuple2<K, i32>) -> Tuple2<K, i32> {
        Tuple2::spec_new((v.x * self) as i32, (v.y * self) as i32)
    }
}

impl<K: Geometry> core::ops::Mul<Tuple3<K, i32>> for i32 {
    type Output = Tuple3<K, i32>;

    fn mul(self, v: Tuple3<K, i32>) -> (r: Tuple3<K, i32>) {
        v * self
    }
}

impl<K: Geometry> vstd::std_specs::ops::MulSpecImpl<Tuple3<K, i32>> for i32 {
    open spec fn obeys_mul_spec() -> bool {
        true
    }

    open spec fn mul_req(self, v: Tuple3<K, i32>) -> bool {
        i32::MIN <= v.x * self <= i32::MAX && i32::MIN <= v.y * self <= i32::MAX && i32::MIN <= v.z * self <= i32::MAX
    }

    open spec fn mul_spec(self, v: Tuple3<K, i32>) -> Tuple3<K, i32> {
        Tuple3::spec_new((v.x * self) as i32, (v.y * self) as i32, (v.z * self) as i32)
    }
}

impl<K: Geometry> core::ops::Mul<Tuple2<K, i64>> for i64 {
    type Output = Tuple2<K, i64>;

    fn mul(self, v: Tuple2<K, i64>) -> (r: Tuple2<K, i64>) {
        v * self
    }
}

impl<K: Geometry> vstd::std_specs::ops::MulSpecImpl<Tuple2<K, i64>> for i64 {
    open spec fn obeys_mul_spec() -> bool {
        true
    }

    open spec fn mul_req(self, v: Tuple2<K, i64>) -> bool {
        i64::MIN <= v.x * self <= i64::MAX && i64::MIN <= v.y * self <= i64::MAX
    }

    open spec fn mul_spec(self, v: Tuple2<K, i64>) -> Tuple2<K, i64> {
        Tuple2::spec_new((v.x * self) as i64, (v.y * self) as i64)
    }
}

impl<K: Geometry> core::ops::Mul<Tuple3<K, i64>> for i64 {
    type Output = Tuple3<K, i64>;

    fn mul(self, v: Tuple3<K, i64>) -> (r: Tuple3<K, i64>) {
        v * self
    }
}

impl<K: Geometry> vstd::std_specs::ops::MulSpecImpl<Tuple3<K, i64>> for i64 {
    open spec fn obeys_mul_spec() -> bool {
        true
    }

    open spec fn mul_req(self, v: Tuple3<K, i64>) -> bool {
        i64::MIN <= v.x * self <= i64::MAX && i64::MIN <= v.y * self <= i64::MAX && i64::MIN <= v.z * self <= i64::MAX
    }

    open spec fn mul_spec(self, v: Tuple3<K, i64>) -> Tuple3<K, i64> {
        Tuple3::spec_new((v.x * self) as i64, (v.y * self) as i64, (v.z * self) as i64)
    }
}

impl<K: Geometry> core::ops::Mul<Tuple2<K, i128>> for i128 {
    type Output = Tuple2<K, i128>;

    fn mul(self, v: Tuple2<K, i128>) -> (r: Tuple2<K, i128>) {
        v * self
    }
}

impl<K: Geometry> vstd::std_specs::ops::MulSpecImpl<Tuple2<K, i128>> for i128 {
    open spec fn obeys_mul_spec() -> bool {
        true
    }

    open spec fn mul_req(self, v: Tuple2<K, i128>) -> bool {
        i128::MIN <= v.x * self <= i128::MAX && i128::MIN <= v.y * self <= i128::MAX
    }

    open spec fn mul_spec(self, v: Tuple2<K, i128>) -> Tuple2<K, i128> {
        Tuple2::spec_new((v.x * self) as i128, (v.y * self) as i128)
    }
}

impl<K: Geometry> core::ops::Mul<Tuple3<K, i128>> for i128 {
    type Output = Tuple3<K, i128>;

    fn mul(self, v: Tuple3<K, i128>) -> (r: Tuple3<K, i128>) {
        v * self
    }
}

impl<K: Geometry> vstd::std_specs::ops::MulSpecImpl<Tuple3<K, i128>> for i128 {
    open spec fn obeys_mul_spec() -> bool {
        true
    }

    open spec fn mul_req(self, v: Tuple3<K, i128>) -> bool {
        i128::MIN <= v.x * self <= i128::MAX && i128::MIN <= v.y * self <= i128::MAX && i128::MIN <= v.z * self <= i128::MAX
    }

    open spec fn mul_spec(self, v: Tuple3<K, i128>) -> Tuple3<K, i128> {
        Tuple3::spec_new((v.x * self) as i128, (v.y * self) as i128, (v.z * self) as i128)
    }
}

impl<K: Geometry> core::ops::Mul<Tuple2<K, isize>> for isize {
    type Output = Tuple2<K, isize>;

    fn mul(self, v: Tuple2<K, isize>) -> (r: Tuple2<K, isize>) {
        v * self
    }
}

impl<K: Geometry> vstd::std_specs::ops::MulSpecImpl<Tuple2<K, isize>> for isize {
    open spec fn obeys_mul_spec() -> bool {
        true
    }

    open spec fn mul_req(self, v: Tuple2<K, isize>) -> bool {
        isize::MIN <= v.x * self <= isize::MAX && isize::MIN <= v.y * self <= isize::MAX
    }

    open spec fn mul_spec(self, v: Tuple2<K, isize>) -> Tuple2<K, isize> {
        Tuple2::spec_new((v.x * self) as isize, (v.y * self) as isize)
    }
}

impl<K: Geometry> core::ops::Mul<Tuple3<K, isize>> for isize {
    type Output = Tuple3<K, isize>;

    fn mul(self, v: Tuple3<K, isize>) -> (r: Tuple3<K, isize>) {
        v * self
    }
}

impl<K: Geometry> vstd::std_specs::ops::MulSpecImpl<Tuple3<K, isize>> for isize {
    open spec fn obeys_mul_spec() -> bool {
        true
    }

    open spec fn mul_req(self, v: Tuple3<K, isize>) -> bool {
        isize::MIN <= v.x * self <= isize::MAX && isize::MIN <= v.y * self <= isize::MAX && isize::MIN <= v.z * self <= isize::MAX
    }

    open spec fn mul_spec(self, v: Tuple3<K, isize>) -> Tuple3<K, isize> {
        Tuple3::spec_new((v.x * self) as isize, (v.y * self) as isize, (v.z * self) as isize)
    }
}

impl<K: Geometry> core::ops::Mul<Tuple2<K, u8>> for u8 {
    type Output = Tuple2<K, u8>;

    fn mul(self, v: Tuple2<K, u8>) -> (r: Tuple2<K, u8>) {
        v * self
    }
}

impl<K: Geometry> vstd::std_specs::ops::MulSpecImpl<Tuple2<K, u8>> for u8 {
    open spec fn obeys_mul_spec() -> bool {
        true
    }

    open spec fn mul_req(self, v: Tuple2<K, u8>) -> bool {
        u8::MIN <= v.x * self <= u8::MAX && u8::MIN <= v.y * self <= u8::MAX
    }

    open spec fn mul_spec(self, v: Tuple2<K, u8>) -> Tuple2<K, u8> {
        Tuple2::spec_new((v.x * self) as u8, (v.y * self) as u8)
    }
}

impl<K: Geometry> core::ops::Mul<Tuple3<K, u8>> for u8 {
    type Output = Tuple3<K, u8>;

    fn mul(self, v: Tuple3<K, u8>) -> (r: Tuple3<K, u8>) {
        v * self
    }
}

impl<K: Geometry> vstd::std_specs::ops::MulSpecImpl<Tuple3<K, u8>> for u8 {
    open spec fn obeys_mul_spec() -> bool {
        true
    }

    open spec fn mul_req(self, v: Tuple3<K, u8>) -> bool {
        u8::MIN <= v.x * self <= u8::MAX && u8::MIN <= v.y * self <= u8::MAX && u8::MIN <= v.z * self <= u8::MAX
    }

    open spec fn mul_spec(self, v: Tuple3<K, u8>) -> Tuple3<K, u8> {
        Tuple3::spec_new((v.x * self) as u8, (v.y * self) as u8, (v.z * self) as u8)
    }
}

impl<K: Geometry> core::ops::Mul<Tuple2<K, u16>> for u16 {
    type Output = Tuple2<K, u16>;

    fn mul(self, v: Tuple2<K, u16>) -> (r: Tuple2<K, u16>) {
        v * self
    }
}

impl<K: Geometry> vstd::std_specs::ops::MulSpecImpl<Tuple2<K, u16>> for u16 {
    open spec fn obeys_mul_spec() -> bool {
        true
    }

    open spec fn mul_req(self, v: Tuple2<K, u16>) -> bool {
        u16::MIN <= v.x * self <= u16::MAX && u16::MIN <= v.y * self <= u16::MAX
    }

    open spec fn mul_spec(self, v: Tuple2<K, u16>) -> Tuple2<K, u16> {
        Tuple2::spec_new((v.x * self) as u16, (v.y * self) as u16)
    }
}

impl<K: Geometry> core::ops::Mul<Tuple3<K, u16>> for u16 {
    type Output = Tuple3<K, u16>;

    fn mul(self, v: Tuple3<K, u16>) -> (r: Tuple3<K, u16>) {
        v * self
    }
}

impl<K: Geometry> vstd::std_specs::ops::MulSpecImpl<Tuple3<K, u16>> for u16 {
    open spec fn obeys_mul_spec() -> bool {
        true
    }

    open spec fn mul_req(self, v: Tuple3<K, u16>) -> bool {
        u16::MIN <= v.x * self <= u16::MAX && u16::MIN <= v.y * self <= u16::MAX && u16::MIN <= v.z * self <= u16::MAX
    }

    open spec fn mul_spec(self, v: Tuple3<K, u16>) -> Tuple3<K, u16> {
        Tuple3::spec_new((v.x * self) as u16, (v.y * self) as u16, (v.z * self) as u16)
    }
}

impl<K: Geometry> core::ops::Mul<Tuple2<K, u32>> for u32 {
    type Output = Tuple2<K, u32>;

    fn mul(self, v: Tuple2<K, u32>) -> (r: Tuple2<K, u32>) {
        v * self
    }
}

impl<K: Geometry> vstd::std_specs::ops::MulSpecImpl<Tuple2<K, u32>> for u32 {
    open spec fn obeys_mul_spec() -> bool {
        true
    }

    open spec fn mul_req(self, v: Tuple2<K, u32>) -> bool {
        u32::MIN <= v.x * self <= u32::MAX && u32::MIN <= v.y * self <= u32::MAX
    }

    open spec fn mul_spec(self, v: Tuple2<K, u32>) -> Tuple2<K, u32> {
        Tuple2::spec_new((v.x * self) as u32, (v.y * self) as u32)
    }
}

impl<K: Geometry> core::ops::Mul<Tuple3<K, u32>> for u32 {
    type Output = Tuple3<K, u32>;

    fn mul(self, v: Tuple3<K, u32>) -> (r: Tuple3<K, u32>) {
        v * self
    }
}

impl<K: Geometry> vstd::std_specs::ops::MulSpecImpl<Tuple3<K, u32>> for u32 {
    open spec fn obeys_mul_spec() -> bool {
        true
    }

    open spec fn mul_req(self, v: Tuple3<K, u32>) -> bool {
        u32::MIN <= v.x * self <= u32::MAX && u32::MIN <= v.y * self <= u32::MAX && u32::MIN <= v.z * self <= u32::MAX
    }

    open spec fn mul_spec(self, v: Tuple3<K, u32>) -> Tuple3<K, u32> {
        Tuple3::spec_new((v.x * self) as u32, (v.y * self) as u32, (v.z * self) as u32)
    }
}

impl<K: Geometry> core::ops::Mul<Tuple2<K, u64>> for u64 {
    type Output = Tuple2<K, u64>;

    fn mul(self, v: Tuple2<K, u64>) -> (r: Tuple2<K, u64>) {
        v * self
    }
}

impl<K: Geometry> vstd::std_specs::ops::MulSpecImpl<Tuple2<K, u64>> for u64 {
    open spec fn obeys_mul_spec() -> bool {
        true
    }

    open spec fn mul_req(self, v: Tuple2<K, u64>) -> bool {
        u64::MIN <= v.x * self <= u64::MAX && u64::MIN <= v.y * self <= u64::MAX
    }

    open spec fn mul_spec(self, v: Tuple2<K, u64>) -> Tuple2<K, u64> {
        Tuple2::spec_new((v.x * self) as u64, (v.y * self) as u64)
    }
}

impl<K: Geometry> core::ops::Mul<Tuple3<K, u64>> for u64 {
    type Output = Tuple3<K, u64>;

    fn mul(self, v: Tuple3<K, u64>) -> (r: Tuple3<K, u64>) {
        v * self
    }
}

impl<K: Geometry> vstd::std_specs::ops::MulSpecImpl<Tuple3<K, u64>> for u64 {
    open spec fn obeys_mul_spec() -> bool {
        true
    }

    open spec fn mul_req(self, v: Tuple3<K, u64>) -> bool {
        u64::MIN <= v.x * self <= u64::MAX && u64::MIN <= v.y * self <= u64::MAX && u64::MIN <= v.z * self <= u64::MAX
    }

    open spec fn mul_spec(self, v: Tuple3<K, u64>) -> Tuple3<K, u64> {
        Tuple3::spec_new((v.x * self) as u64, (v.y * self) as u64, (v.z * self) as u64)
    }
}

impl<K: Geometry> core::ops::Mul<Tuple2<K, u128>> for u128 {
    type Output = Tuple2<K, u128>;

    fn mul(self, v: Tuple2<K, u128>) -> (r: Tuple2<K, u128>) {
        v * self
    }
}

impl<K: Geometry> vstd::std_specs::ops::MulSpecImpl<Tuple2<K, u128>> for u128 {
    open spec fn obeys_mul_spec() -> bool {
        true
    }

    open spec fn mul_req(self, v: Tuple2<K, u128>) -> bool {
        u128::MIN <= v.x * self <= u128::MAX && u128::MIN <= v.y * self <= u128::MAX
    }

    open spec fn mul_spec(self, v: Tuple2<K, u128>) -> Tuple2<K, u128> {
        Tuple2::spec_new((v.x * self) as u128, (v.y * self) as u128)
    }
}

impl<K: Geometry> core::ops::Mul<Tuple3<K, u128>> for u128 {
    type Output = Tuple3<K, u128>;

    fn mul(self, v: Tuple3<K, u128>) -> (r: Tuple3<K, u128>) {
        v * self
    }
}

impl<K: Geometry> vstd::std_specs::ops::MulSpecImpl<Tuple3<K, u128>> for u128 {
    open spec fn obeys_mul_spec() -> bool {
        true
    }

    open spec fn mul_req(self, v: Tuple3<K, u128>) -> bool {
        u128::MIN <= v.x * self <= u128::MAX && u128::MIN <= v.y * self <= u128::MAX && u128::MIN <= v.z * self <= u128::MAX
    }

    open spec fn mul_spec(self, v: Tuple3<K, u128>) -> Tuple3<K, u128> {
        Tuple3::spec_new((v.x * self) as u128, (v.y * self) as u128, (v.z * self) as u128)
    }
}

impl<K: Geometry> core::ops::Mul<Tuple2<K, usize>> for usize {
    type Output = Tuple2<K, usize>;

    fn mul(self, v: Tuple2<K, usize>) -> (r: Tuple2<K, usize>) {
        v * self
    }
}

impl<K: Geometry> vstd::std_specs::ops::MulSpecImpl<Tuple2<K, usize>> for usize {
    open spec fn obeys_mul_spec() -> bool {
        true
    }

    open spec fn mul_req(self, v: Tuple2<K, usize>) -> bool {
        usize::MIN <= v.x * self <= usize::MAX && usize::MIN <= v.y * self <= usize::MAX
    }

    open spec fn mul_spec(self, v: Tuple2<K, usize>) -> Tuple2<K, usize> {
        Tuple2::spec_new((v.x * self) as usize, (v.y * self) as usize)
    }
}

impl<K: Geometry> core::ops::Mul<Tuple3<K, usize>> for usize {
    type Output = Tuple3<K, usize>;

    fn mul(self, v: Tuple3<K, usize>) -> (r: Tuple3<K, usize>) {
        v * self
    }
}

impl<K: Geometry> vstd::std_specs::ops::MulSpecImpl<Tuple3<K, usize>> for usize {
    open spec fn obeys_mul_spec() -> bool {
        true
    }

    open spec fn mul_req(self, v: Tuple3<K, usize>) -> bool {
        usize::MIN <= v.x * self <= usize::MAX && usize::MIN <= v.y * self <= usize::MAX && usize::MIN <= v.z * self <= usize::MAX
    }

    open spec fn mul_spec(self, v: Tuple3<K, usize>) -> Tuple3<K, usize> {
        Tuple3::spec_new((v.x * self) as usize, (v.y * self) as usize, (v.z * self) as usize)
    }
}

/// Scalar-first and scalar-last multiplication agree: `s * v` is defined
/// exactly where `v * s` is, and equals it.
pub proof fn lemma_scalar_mul_commutes_2<K: Geometry>(v: Tuple2<K, i32>, s: i32)
    ensures
        <i32 as MulSpec<Tuple2<K, i32>>>::mul_req(s, v) == <Tuple2<K, i32> as MulSpec<i32>>::mul_req(v, s),
        <i32 as MulSpec<Tuple2<K, i32>>>::mul_spec(s, v) == <Tuple2<K, i32> as MulSpec<i32>>::mul_spec(v, s),
{
}

/// Scalar-first and scalar-last multiplication agree: `s * v` is defined
/// exactly where `v * s` is, and equals it.
pub proof fn lemma_scalar_mul_commutes_3<K: Geometry>(v: Tuple3<K, i32>, s: i32)
    ensures
        <i32 as MulSpec<Tuple3<K, i32>>>::mul_req(s, v) == <Tuple3<K, i32> as MulSpec<i32>>::mul_req(v, s),
        <i32 as MulSpec<Tuple3<K, i32>>>::mul_spec(s, v) == <Tuple3<K, i32> as MulSpec<i32>>::mul_spec(v, s),
{
}

} // verus!
