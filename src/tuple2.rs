use crate::decimal::{append_number, signed_decimal};
use crate::geometry::{Geometry, NormalKind, PointKind, VectorKind};
use crate::number_traits::{
    abs_int, fits, lerp_fits, lerp_int, mul_add_fits, mul_add_int, Number, Signed,
};
use crate::partial_pre_ord::{comparable, max_of, min_of, PartialPreOrd};
use vstd::prelude::*;
use vstd::std_specs::ops::{AddSpec, DivSpec, MulSpec, NegSpec, SubSpec};
use vstd::string::StringExecFns;

verus! {

/// Two components `x`, `y` of one scalar type `T`. `K` says whether
/// the tuple is a vector, a point or a normal.
///
/// Equality, ordering and hashing go by the components, in that order.
#[derive(Clone, Copy, PartialEq, Eq, PartialOrd, Ord, Hash, Debug, Default)]
pub struct Tuple2<K, T> {
    pub x: T,
    pub y: T,
    pub kind: K,
}

impl<K, T> Tuple2<K, T> {
    /// Component `i`: `x` and `y` for 0 and 1.
    pub open spec fn component(self, i: int) -> T {
        if i == 0 {
            self.x
        } else {
            self.y
        }
    }
}

impl<K: Geometry, T> Tuple2<K, T> {
    /// The tuple `(x, y)`.
    pub open spec fn spec_new(x: T, y: T) -> Self {
        Tuple2 { x, y, kind: K::spec_tag() }
    }

    /// The tuple whose component `k` is component `pk` of `self`.
    pub open spec fn spec_permute(self, p0: int, p1: int) -> Self {
        Self::spec_new(self.component(p0), self.component(p1))
    }

    /// `self` with component `i` replaced by `value`.
    pub open spec fn spec_set(self, i: int, value: T) -> Self {
        Self::spec_new(
            if i == 0 { value } else { self.x },
            if i == 1 { value } else { self.y },
        )
    }

    /// Two tuples of one kind are equal when their components are.
    pub proof fn lemma_components_equal(a: Self, b: Self)
        requires
            a.x == b.x,
            a.y == b.y,
        ensures
            a == b,
    {
        K::lemma_single(a.kind);
        K::lemma_single(b.kind);
    }

    /// The tuple `(x, y)`.
    pub fn new(x: T, y: T) -> (r: Self)
        ensures
            r == Self::spec_new(x, y),
    {
        Tuple2 { x, y, kind: K::tag() }
    }
}

impl<K: Geometry, T: Copy> Tuple2<K, T> {
    /// Component `i`; any index from 2 on is refused.
    pub fn get(&self, i: usize) -> (r: T)
        requires
            i < 2,
        ensures
            r == self.component(i as int),
    {
        // The array's bound check keeps an index from 2 on fatal for
        // callers outside verified code.
        let c = [self.x, self.y];
        c[i]
    }

    /// Replaces component `i`; any index from 2 on is refused.
    pub fn set(&mut self, i: usize, value: T)
        requires
            i < 2,
        ensures
            *final(self) == old(self).spec_set(i as int, value),
    {
        let mut c = [self.x, self.y];
        c[i] = value;
        *self = Self::new(c[0], c[1]);
    }

    /// The tuple whose component `n` is component `indices[n]` of `self`.
    /// Indices may repeat; any index from 2 on is refused.
    pub fn permute(self, indices: &[usize; 2]) -> (r: Self)
        requires
            indices[0] < 2,
            indices[1] < 2,
        ensures
            r == self.spec_permute(indices[0] as int, indices[1] as int),
    {
        Self::new(self.get(indices[0]), self.get(indices[1]))
    }
}

impl<K: Geometry, T: Number> Tuple2<K, T> {
    /// The tuple with every component `T::from_int(n)`.
    pub open spec fn spec_splat(n: int) -> Self {
        Self::spec_new(T::from_int(n), T::from_int(n))
    }

    /// The tuple of the values of `self` in `U`, where `U` holds both;
    /// `None` where it does not.
    pub open spec fn spec_cast<U: Number>(self) -> Option<Tuple2<K, U>> {
        if fits::<U>(self.x.to_int()) && fits::<U>(self.y.to_int()) {
            Some(Tuple2::<K, U>::spec_new(U::from_int(self.x.to_int()), U::from_int(self.y.to_int())))
        } else {
            None
        }
    }

    /// The tuple with all components zero.
    pub fn zero() -> (r: Self)
        ensures
            r == Self::spec_splat(0),
    {
        let o = T::zero();
        proof {
            T::lemma_value(o, o);
            T::lemma_from_int(0);
            T::lemma_value(o, T::from_int(0));
        }
        Self::new(o, o)
    }

    /// Whether any component is NaN: never, for the integer scalars.
    pub fn has_nan(self) -> (r: bool)
        ensures
            !r,
    {
        self.x.is_nan() || self.y.is_nan()
    }

    /// The product of the two components.
    pub fn h_prod(self) -> (r: T)
        requires
            fits::<T>(self.x.to_int() * self.y.to_int()),
        ensures
            r.to_int() == self.x.to_int() * self.y.to_int(),
    {
        proof {
            T::lemma_arith(self.x, self.y);
        }
        self.x * self.y
    }

    /// `a * b + c` for one component.
    fn mul_add_scalar(a: T, b: T, c: T) -> (r: T)
        requires
            mul_add_fits::<T>(a.to_int(), b.to_int(), c.to_int()),
        ensures
            r.to_int() == mul_add_int(a.to_int(), b.to_int(), c.to_int()),
    {
        proof {
            T::lemma_arith(a, b);
        }
        let ab = a * b;
        proof {
            T::lemma_arith(ab, c);
        }
        ab + c
    }

    /// Component-wise `self * a + b`.
    pub fn mul_add(self, a: Self, b: Self) -> (r: Self)
        requires
            mul_add_fits::<T>(self.x.to_int(), a.x.to_int(), b.x.to_int()),
            mul_add_fits::<T>(self.y.to_int(), a.y.to_int(), b.y.to_int()),
        ensures
            r.x.to_int() == mul_add_int(self.x.to_int(), a.x.to_int(), b.x.to_int()),
            r.y.to_int() == mul_add_int(self.y.to_int(), a.y.to_int(), b.y.to_int()),
    {
        Self::new(
            Self::mul_add_scalar(self.x, a.x, b.x),
            Self::mul_add_scalar(self.y, a.y, b.y),
        )
    }

    /// `(1 - t) * a + t * b` for one component.
    fn lerp_scalar(a: T, b: T, t: T) -> (r: T)
        requires
            lerp_fits::<T>(a.to_int(), b.to_int(), t.to_int()),
        ensures
            r.to_int() == lerp_int(a.to_int(), b.to_int(), t.to_int()),
    {
        let one = T::one();
        proof {
            T::lemma_arith(one, t);
        }
        let s = one - t;
        proof {
            T::lemma_arith(s, a);
            T::lemma_arith(t, b);
        }
        let sa = s * a;
        let tb = t * b;
        proof {
            T::lemma_arith(sa, tb);
        }
        sa + tb
    }

    /// The linear interpolation `(1 - t) * self + t * other`, component-wise.
    pub fn lerp(self, other: Self, t: T) -> (r: Self)
        requires
            lerp_fits::<T>(self.x.to_int(), other.x.to_int(), t.to_int()),
            lerp_fits::<T>(self.y.to_int(), other.y.to_int(), t.to_int()),
        ensures
            r.x.to_int() == lerp_int(self.x.to_int(), other.x.to_int(), t.to_int()),
            r.y.to_int() == lerp_int(self.y.to_int(), other.y.to_int(), t.to_int()),
    {
        Self::new(
            Self::lerp_scalar(self.x, other.x, t),
            Self::lerp_scalar(self.y, other.y, t),
        )
    }
}

impl<K: Geometry, T: Signed> Tuple2<K, T> {
    /// The absolute value of each component; `MIN` has none within the type.
    pub fn abs(self) -> (r: Self)
        requires
            T::lowest() < self.x.to_int(),
            T::lowest() < self.y.to_int(),
        ensures
            r.x.to_int() == abs_int(self.x.to_int()),
            r.y.to_int() == abs_int(self.y.to_int()),
    {
        Self::new(self.x.abs(), self.y.abs())
    }
}

impl<K: Geometry, T: PartialPreOrd + Copy> Tuple2<K, T> {
    /// The smaller component: the reduction `min(x, y)`.
    pub open spec fn spec_min_value(self) -> T {
        min_of(self.x, self.y)
    }

    /// The larger component: the reduction `max(x, y)`.
    pub open spec fn spec_max_value(self) -> T {
        max_of(self.x, self.y)
    }

    /// The index of the smaller component; 0 on a tie.
    pub open spec fn spec_min_index(self) -> int {
        if self.y.lt_spec(self.x) { 1 } else { 0 }
    }

    /// The index of the larger component; 0 on a tie.
    pub open spec fn spec_max_index(self) -> int {
        if self.x.lt_spec(self.y) { 1 } else { 0 }
    }

    /// The component-wise minimum.
    pub fn min(self, other: Self) -> (r: Self)
        ensures
            r == Self::spec_new(min_of(self.x, other.x), min_of(self.y, other.y)),
    {
        Self::new(
            PartialPreOrd::min(self.x, other.x),
            PartialPreOrd::min(self.y, other.y),
        )
    }

    /// The component-wise maximum.
    pub fn max(self, other: Self) -> (r: Self)
        ensures
            r == Self::spec_new(max_of(self.x, other.x), max_of(self.y, other.y)),
    {
        Self::new(
            PartialPreOrd::max(self.x, other.x),
            PartialPreOrd::max(self.y, other.y),
        )
    }

    /// The smaller component.
    pub fn min_component_value(self) -> (r: T)
        ensures
            r == self.spec_min_value(),
    {
        PartialPreOrd::min(self.x, self.y)
    }

    /// The larger component.
    pub fn max_component_value(self) -> (r: T)
        ensures
            r == self.spec_max_value(),
    {
        PartialPreOrd::max(self.x, self.y)
    }

    /// The index of the smaller component; 0 on a tie.
    pub fn min_component_index(self) -> (r: usize)
        ensures
            r == self.spec_min_index(),
    {
        if self.y.precedes(&self.x) {
            1
        } else {
            0
        }
    }

    /// The index of the larger component; 0 on a tie.
    pub fn max_component_index(self) -> (r: usize)
        ensures
            r == self.spec_max_index(),
    {
        if self.x.precedes(&self.y) {
            1
        } else {
            0
        }
    }
}

impl<K: Geometry, T: Number> Tuple2<K, T> {
    /// The same tuple over the scalar type `U`: `Some` exactly where `U`
    /// holds every component, with each value kept.
    pub fn cast<U: Number>(self) -> (r: Option<Tuple2<K, U>>)
        ensures
            r == self.spec_cast::<U>(),
    {
        let (nx, mx) = self.x.to_sign_magnitude();
        let (ny, my) = self.y.to_sign_magnitude();
        match (U::from_sign_magnitude(nx, mx), U::from_sign_magnitude(ny, my)) {
            (Some(a), Some(b)) => {
                proof {
                    U::lemma_from_int(self.x.to_int());
                    U::lemma_from_int(self.y.to_int());
                    U::lemma_value(a, U::from_int(self.x.to_int()));
                    U::lemma_value(b, U::from_int(self.y.to_int()));
                }
                Some(Tuple2::new(a, b))
            },
            _ => None,
        }
    }
}

impl<K: Geometry, T: Number> Tuple2<K, T> {
    /// The text of the tuple: the kind's name and the arity, then the
    /// components in decimal between parentheses, separated by `, `, as in
    /// `Vector2(-1, 10)`.
    pub fn to_string(&self) -> (r: String)
        ensures
            r@ == K::spec_name() + "2("@ + signed_decimal(self.x.to_int()) + ", "@ + signed_decimal(self.y.to_int()) + ")"@,
    {
        let mut s = String::from_str(K::name());
        s.append("2(");
        append_number(&mut s, self.x);
        s.append(", ");
        append_number(&mut s, self.y);
        s.append(")");
        s
    }
}

impl<K: Geometry> Tuple2<K, bool> {
    /// The tuple over the integer scalar `U` with 1 for each `true` and 0 for
    /// each `false`.
    pub fn to_number<U: Number>(self) -> (r: Tuple2<K, U>)
        ensures
            r == Tuple2::<K, U>::spec_new(
                U::from_int(if self.x { 1 } else { 0 }),
                U::from_int(if self.y { 1 } else { 0 }),
            ),
    {
        let zero = U::zero();
        let one = U::one();
        proof {
            U::lemma_value(zero, one);
            U::lemma_from_int(0);
            U::lemma_from_int(1);
            U::lemma_value(zero, U::from_int(0));
            U::lemma_value(one, U::from_int(1));
        }
        Tuple2::new(
            if self.x { one } else { zero },
            if self.y { one } else { zero },
        )
    }
}

impl<K: Geometry, T: Copy + core::ops::Add<Output = T>> Tuple2<K, T> {
    /// `self = self + rhs`.
    pub fn add_assign(&mut self, rhs: Self)
        requires
            old(self).add_req(rhs),
        ensures
            T::obeys_add_spec() ==> *final(self) == old(self).add_spec(rhs),
    {
        *self = *self + rhs;
    }
}

impl<K: Geometry, T: Copy + core::ops::Sub<Output = T>> Tuple2<K, T> {
    /// `self = self - rhs`.
    pub fn sub_assign(&mut self, rhs: Self)
        requires
            old(self).sub_req(rhs),
        ensures
            T::obeys_sub_spec() ==> *final(self) == old(self).sub_spec(rhs),
    {
        *self = *self - rhs;
    }
}

impl<K: Geometry, T: Copy + core::ops::Mul<Output = T>> Tuple2<K, T> {
    /// `self = self * s`.
    pub fn mul_assign(&mut self, s: T)
        requires
            old(self).mul_req(s),
        ensures
            <T as MulSpec<T>>::obeys_mul_spec() ==> *final(self) == old(self).mul_spec(s),
    {
        *self = *self * s;
    }
}

impl<K: Geometry, T: Copy + core::ops::Div<Output = T>> Tuple2<K, T> {
    /// `self = self / s`.
    pub fn div_assign(&mut self, s: T)
        requires
            old(self).div_req(s),
        ensures
            <T as DivSpec<T>>::obeys_div_spec() ==> *final(self) == old(self).div_spec(s),
    {
        *self = *self / s;
    }
}

impl<K: Geometry, T: core::ops::Add<Output = T>> core::ops::Add for Tuple2<K, T> {
    type Output = Self;

    /// The component-wise sum.
    fn add(self, rhs: Self) -> (r: Self) {
        Self::new(self.x + rhs.x, self.y + rhs.y)
    }
}

impl<K: Geometry, T: core::ops::Add<Output = T>> vstd::std_specs::ops::AddSpecImpl for Tuple2<K, T> {
    open spec fn obeys_add_spec() -> bool {
        T::obeys_add_spec()
    }

    open spec fn add_req(self, rhs: Self) -> bool {
        self.x.add_req(rhs.x) && self.y.add_req(rhs.y)
    }

    open spec fn add_spec(self, rhs: Self) -> Self {
        Self::spec_new(self.x.add_spec(rhs.x), self.y.add_spec(rhs.y))
    }
}

impl<K: Geometry, T: core::ops::Sub<Output = T>> core::ops::Sub for Tuple2<K, T> {
    type Output = Self;

    /// The component-wise difference.
    fn sub(self, rhs: Self) -> (r: Self) {
        Self::new(self.x - rhs.x, self.y - rhs.y)
    }
}

impl<K: Geometry, T: core::ops::Sub<Output = T>> vstd::std_specs::ops::SubSpecImpl for Tuple2<K, T> {
    open spec fn obeys_sub_spec() -> bool {
        T::obeys_sub_spec()
    }

    open spec fn sub_req(self, rhs: Self) -> bool {
        self.x.sub_req(rhs.x) && self.y.sub_req(rhs.y)
    }

    open spec fn sub_spec(self, rhs: Self) -> Self {
        Self::spec_new(self.x.sub_spec(rhs.x), self.y.sub_spec(rhs.y))
    }
}

impl<K: Geometry, T: core::ops::Neg<Output = T>> core::ops::Neg for Tuple2<K, T> {
    type Output = Self;

    /// The component-wise negation.
    fn neg(self) -> (r: Self) {
        Self::new(self.x.neg(), self.y.neg())
    }
}

impl<K: Geometry, T: core::ops::Neg<Output = T>> vstd::std_specs::ops::NegSpecImpl for Tuple2<K, T> {
    open spec fn obeys_neg_spec() -> bool {
        T::obeys_neg_spec()
    }

    open spec fn neg_req(self) -> bool {
        self.x.neg_req() && self.y.neg_req()
    }

    open spec fn neg_spec(self) -> Self {
        Self::spec_new(self.x.neg_spec(), self.y.neg_spec())
    }
}

impl<K: Geometry, T: Copy + core::ops::Mul<Output = T>> core::ops::Mul<T> for Tuple2<K, T> {
    type Output = Self;

    /// Each component times the scalar `s`.
    fn mul(self, s: T) -> (r: Self) {
        Self::new(self.x * s, self.y * s)
    }
}

impl<K: Geometry, T: Copy + core::ops::Mul<Output = T>> vstd::std_specs::ops::MulSpecImpl<T> for Tuple2<K, T> {
    open spec fn obeys_mul_spec() -> bool {
        <T as MulSpec<T>>::obeys_mul_spec()
    }

    open spec fn mul_req(self, s: T) -> bool {
        <T as MulSpec<T>>::mul_req(self.x, s) && <T as MulSpec<T>>::mul_req(self.y, s)
    }

    open spec fn mul_spec(self, s: T) -> Self {
        Self::spec_new(<T as MulSpec<T>>::mul_spec(self.x, s), <T as MulSpec<T>>::mul_spec(self.y, s))
    }
}

impl<K: Geometry, T: Copy + core::ops::Div<Output = T>> core::ops::Div<T> for Tuple2<K, T> {
    type Output = Self;

    /// Each component divided by the scalar `s`.
    fn div(self, s: T) -> (r: Self) {
        Self::new(self.x / s, self.y / s)
    }
}

impl<K: Geometry, T: Copy + core::ops::Div<Output = T>> vstd::std_specs::ops::DivSpecImpl<T> for Tuple2<K, T> {
    open spec fn obeys_div_spec() -> bool {
        <T as DivSpec<T>>::obeys_div_spec()
    }

    open spec fn div_req(self, s: T) -> bool {
        self.x.div_req(s) && self.y.div_req(s)
    }

    open spec fn div_spec(self, s: T) -> Self {
        Self::spec_new(self.x.div_spec(s), self.y.div_spec(s))
    }
}

impl<T> From<Tuple2<PointKind, T>> for Tuple2<VectorKind, T> {
    /// The vector from the origin to the point.
    fn from(p: Tuple2<PointKind, T>) -> (r: Self) {
        Self::new(p.x, p.y)
    }
}

impl<T> vstd::std_specs::convert::FromSpecImpl<Tuple2<PointKind, T>> for Tuple2<VectorKind, T> {
    open spec fn obeys_from_spec() -> bool {
        true
    }

    open spec fn from_spec(p: Tuple2<PointKind, T>) -> Self {
        Self::spec_new(p.x, p.y)
    }
}

impl<T> From<Tuple2<NormalKind, T>> for Tuple2<VectorKind, T> {
    /// The vector with the components of the normal.
    fn from(n: Tuple2<NormalKind, T>) -> (r: Self) {
        Self::new(n.x, n.y)
    }
}

impl<T> vstd::std_specs::convert::FromSpecImpl<Tuple2<NormalKind, T>> for Tuple2<VectorKind, T> {
    open spec fn obeys_from_spec() -> bool {
        true
    }

    open spec fn from_spec(n: Tuple2<NormalKind, T>) -> Self {
        Self::spec_new(n.x, n.y)
    }
}

impl<K, T> core::ops::Index<usize> for Tuple2<K, T> {
    type Output = T;

    /// Component `i`; any index from 2 on is refused.
    fn index(&self, i: usize) -> (r: &T)
        ensures
            *r == self.component(i as int),
    {
        let c = [&self.x, &self.y];
        c[i]
    }
}

impl<K, T> vstd::std_specs::core::IndexSpecImpl<usize> for Tuple2<K, T> {
    open spec fn index_req(&self, i: &usize) -> bool {
        *i < 2
    }
}

} // verus!

verus! {

/// Adding the zero tuple, subtracting a tuple from itself and scaling by one
/// are all defined, and give the tuple, the zero tuple and the tuple back.
pub proof fn lemma_arithmetic_identities_2<K: Geometry, T: Number>(v: Tuple2<K, T>)
    ensures
        v.add_req(Tuple2::spec_splat(0)),
        v.add_spec(Tuple2::spec_splat(0)) == v,
        v.sub_req(v),
        v.sub_spec(v) == Tuple2::<K, T>::spec_splat(0),
        v.mul_req(T::from_int(1)),
        v.mul_spec(T::from_int(1)) == v,
{
    T::lemma_value(v.x, v.x);
    T::lemma_value(v.y, v.y);
    T::lemma_from_int(0);
    T::lemma_from_int(1);
    let o = T::from_int(0);
    let one = T::from_int(1);
    T::lemma_arith(v.x, o);
    T::lemma_arith(v.y, o);
    T::lemma_arith(v.x, v.x);
    T::lemma_arith(v.y, v.y);
    T::lemma_arith(v.x, one);
    T::lemma_arith(v.y, one);
    T::lemma_value(v.x.add_spec(o), v.x);
    T::lemma_value(v.y.add_spec(o), v.y);
    T::lemma_value(v.x.sub_spec(v.x), o);
    T::lemma_value(v.y.sub_spec(v.y), o);
    T::lemma_value(v.x.mul_spec(one), v.x);
    T::lemma_value(v.y.mul_spec(one), v.y);
    Tuple2::lemma_components_equal(v.add_spec(Tuple2::spec_splat(0)), v);
    Tuple2::lemma_components_equal(v.mul_spec(one), v);
}

/// Permuting by `[0, 1]` gives the tuple back.
pub proof fn lemma_permute_identity_2<K: Geometry, T>(v: Tuple2<K, T>)
    ensures
        v.spec_permute(0, 1) == v,
{
    Tuple2::lemma_components_equal(v.spec_permute(0, 1), v);
}

/// Component `i` of the permuted tuple is component `p[i]` of the tuple.
pub proof fn lemma_permute_component_2<K: Geometry, T>(v: Tuple2<K, T>, p0: int, p1: int, i: int)
    requires
        0 <= p0 < 2,
        0 <= p1 < 2,
        0 <= i < 2,
    ensures
        v.spec_permute(p0, p1).component(i) == v.component(if i == 0 { p0 } else { p1 }),
{
}

/// Where the components are comparable, the component at the index of the
/// minimum is the minimum, and the index is 1 only where `y` lies strictly
/// below `x`; the same holds of the maximum the other way round.
pub proof fn lemma_index_consistency_2<K: Geometry, T: PartialPreOrd + Copy>(v: Tuple2<K, T>)
    requires
        comparable(v.x, v.y),
    ensures
        0 <= v.spec_min_index() < 2,
        v.component(v.spec_min_index()) == v.spec_min_value(),
        v.spec_min_index() == 1 <==> v.y.lt_spec(v.x),
        0 <= v.spec_max_index() < 2,
        v.component(v.spec_max_index()) == v.spec_max_value(),
        v.spec_max_index() == 1 <==> v.x.lt_spec(v.y),
{
    T::lemma_strict_order(v.x, v.y, v.x);
    T::lemma_strict_order(v.y, v.x, v.y);
}

/// A tuple whose components `U` holds converts to `U` and back to itself.
pub proof fn lemma_cast_round_trip_2<K: Geometry, T: Number, U: Number>(v: Tuple2<K, T>)
    requires
        fits::<U>(v.x.to_int()),
        fits::<U>(v.y.to_int()),
    ensures
        v.spec_cast::<U>() is Some,
        v.spec_cast::<U>().unwrap().spec_cast::<T>() == Some(v),
{
    U::lemma_from_int(v.x.to_int());
    U::lemma_from_int(v.y.to_int());
    T::lemma_value(v.x, v.x);
    T::lemma_value(v.y, v.y);
    T::lemma_from_int(v.x.to_int());
    T::lemma_from_int(v.y.to_int());
    T::lemma_value(v.x, T::from_int(v.x.to_int()));
    T::lemma_value(v.y, T::from_int(v.y.to_int()));
    let w = v.spec_cast::<U>().unwrap();
    Tuple2::lemma_components_equal(w.spec_cast::<T>().unwrap(), v);
}

} // verus!
