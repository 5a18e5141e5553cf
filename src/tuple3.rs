use crate::decimal::{append_number, signed_decimal};
use crate::geometry::{Geometry, NormalKind, PointKind, VectorKind};
use crate::number_traits::{
    abs_int, fits, lerp_fits, lerp_int, mul_add_fits, mul_add_int, Number, Signed,
};
use crate::partial_pre_ord::{comparable, max_of, min_of, PartialPreOrd};
use vstd::prelude::*;
use vstd::std_specs::ops::{AddSpec, DivSpec, MulSpec, NegSpec, SubSpec};
use vstd::string::StringExecFns;

verus! {

/// Three components `x`, `y`, `z` of one scalar type `T`. `K` says whether
/// the tuple is a vector, a point or a normal.
///
/// Equality, ordering and hashing go by the components, in that order.
#[derive(Clone, Copy, PartialEq, Eq, PartialOrd, Ord, Hash, Debug, Default)]
pub struct Tuple3<K, T> {
    pub x: T,
    pub y: T,
    pub z: T,
    pub kind: K,
}

impl<K, T> Tuple3<K, T> {
    /// Component `i`: `x`, `y` and `z` for 0, 1 and 2.
    pub open spec fn component(self, i: int) -> T {
        if i == 0 {
            self.x
        } else if i == 1 {
            self.y
        } else {
            self.z
        }
    }
}

impl<K: Geometry, T> Tuple3<K, T> {
    /// The tuple `(x, y, z)`.
    pub open spec fn spec_new(x: T, y: T, z: T) -> Self {
        Tuple3 { x, y, z, kind: K::spec_tag() }
    }

    /// The tuple whose component `k` is component `pk` of `self`.
    pub open spec fn spec_permute(self, p0: int, p1: int, p2: int) -> Self {
        Self::spec_new(self.component(p0), self.component(p1), self.component(p2))
    }

    /// `self` with component `i` replaced by `value`.
    pub open spec fn spec_set(self, i: int, value: T) -> Self {
        Self::spec_new(
            if i == 0 { value } else { self.x },
            if i == 1 { value } else { self.y },
            if i == 2 { value } else { self.z },
        )
    }

    /// Two tuples of one kind are equal when their components are.
    pub proof fn lemma_components_equal(a: Self, b: Self)
        requires
            a.x == b.x,
            a.y == b.y,
            a.z == b.z,
        ensures
            a == b,
    {
        K::lemma_single(a.kind);
        K::lemma_single(b.kind);
    }

    /// The tuple `(x, y, z)`.
    pub fn new(x: T, y: T, z: T) -> (r: Self)
        ensures
            r == Self::spec_new(x, y, z),
    {
        Tuple3 { x, y, z, kind: K::tag() }
    }
}

impl<K: Geometry, T: Copy> Tuple3<K, T> {
    /// Component `i`; any index from 3 on is refused.
    pub fn get(&self, i: usize) -> (r: T)
        requires
            i < 3,
        ensures
            r == self.component(i as int),
    {
        // The array's bound check keeps an index from 3 on fatal for
        // callers outside verified code.
        let c = [self.x, self.y, self.z];
        c[i]
    }

    /// Replaces component `i`; any index from 3 on is refused.
    pub fn set(&mut self, i: usize, value: T)
        requires
            i < 3,
        ensures
            *final(self) == old(self).spec_set(i as int, value),
    {
        let mut c = [self.x, self.y, self.z];
        c[i] = value;
        *self = Self::new(c[0], c[1], c[2]);
    }

    /// The tuple whose component `n` is component `indices[n]` of `self`.
    /// Indices may repeat; any index from 3 on is refused.
    pub fn permute(self, indices: &[usize; 3]) -> (r: Self)
        requires
            indices[0] < 3,
            indices[1] < 3,
            indices[2] < 3,
        ensures
            r == self.spec_permute(indices[0] as int, indices[1] as int, indices[2] as int),
    {
        Self::new(self.get(indices[0]), self.get(indices[1]), self.get(indices[2]))
    }
}

impl<K: Geometry, T: Number> Tuple3<K, T> {
    /// The tuple with every component `T::from_int(n)`.
    pub open spec fn spec_splat(n: int) -> Self {
        Self::spec_new(T::from_int(n), T::from_int(n), T::from_int(n))
    }

    /// The tuple of the values of `self` in `U`, where `U` holds all three;
    /// `None` where it does not.
    pub open spec fn spec_cast<U: Number>(self) -> Option<Tuple3<K, U>> {
        if fits::<U>(self.x.to_int()) && fits::<U>(self.y.to_int()) && fits::<U>(self.z.to_int()) {
            Some(
                Tuple3::<K, U>::spec_new(
                    U::from_int(self.x.to_int()),
                    U::from_int(self.y.to_int()),
                    U::from_int(self.z.to_int()),
                ),
            )
        } else {
            None
        }
    }

    /// The tuple with all components zero.
    pub fn zero() -> (r: Self)
        ensures
            r == Self::spec_splat(0),
    {
        let o = T::zero();
        proof {
            T::lemma_value(o, o);
            T::lemma_from_int(0);
            T::lemma_value(o, T::from_int(0));
        }
        Self::new(o, o, o)
    }

    /// Whether any component is NaN: never, for the integer scalars.
    pub fn has_nan(self) -> (r: bool)
        ensures
            !r,
    {
        self.x.is_nan() || self.y.is_nan() || self.z.is_nan()
    }

    /// The product of the three components.
    pub fn h_prod(self) -> (r: T)
        requires
            fits::<T>(self.x.to_int() * self.y.to_int()),
            fits::<T>(self.x.to_int() * self.y.to_int() * self.z.to_int()),
        ensures
            r.to_int() == self.x.to_int() * self.y.to_int() * self.z.to_int(),
    {
        proof {
            T::lemma_arith(self.x, self.y);
        }
        let xy = self.x * self.y;
        proof {
            T::lemma_arith(xy, self.z);
        }
        xy * self.z
    }

    /// `a * b + c` for one component.
    fn mul_add_scalar(a: T, b: T, c: T) -> (r: T)
        requires
            mul_add_fits::<T>(a.to_int(), b.to_int(), c.to_int()),
        ensures
            r.to_int() == mul_add_int(a.to_int(), b.to_int(), c.to_int()),
    {
        proof {
            T::lemma_arith(a, b);
        }
        let ab = a * b;
        proof {
            T::lemma_arith(ab, c);
        }
        ab + c
    }

    /// Component-wise `self * a + b`.
    pub fn mul_add(self, a: Self, b: Self) -> (r: Self)
        requires
            mul_add_fits::<T>(self.x.to_int(), a.x.to_int(), b.x.to_int()),
            mul_add_fits::<T>(self.y.to_int(), a.y.to_int(), b.y.to_int()),
            mul_add_fits::<T>(self.z.to_int(), a.z.to_int(), b.z.to_int()),
        ensures
            r.x.to_int() == mul_add_int(self.x.to_int(), a.x.to_int(), b.x.to_int()),
            r.y.to_int() == mul_add_int(self.y.to_int(), a.y.to_int(), b.y.to_int()),
            r.z.to_int() == mul_add_int(self.z.to_int(), a.z.to_int(), b.z.to_int()),
    {
        Self::new(
            Self::mul_add_scalar(self.x, a.x, b.x),
            Self::mul_add_scalar(self.y, a.y, b.y),
            Self::mul_add_scalar(self.z, a.z, b.z),
        )
    }

    /// `(1 - t) * a + t * b` for one component.
    fn lerp_scalar(a: T, b: T, t: T) -> (r: T)
        requires
            lerp_fits::<T>(a.to_int(), b.to_int(), t.to_int()),
        ensures
            r.to_int() == lerp_int(a.to_int(), b.to_int(), t.to_int()),
    {
        let one = T::one();
        proof {
            T::lemma_arith(one, t);
        }
        let s = one - t;
        proof {
            T::lemma_arith(s, a);
            T::lemma_arith(t, b);
        }
        let sa = s * a;
        let tb = t * b;
        proof {
            T::lemma_arith(sa, tb);
        }
        sa + tb
    }

    /// The linear interpolation `(1 - t) * self + t * other`, component-wise.
    pub fn lerp(self, other: Self, t: T) -> (r: Self)
        requires
            lerp_fits::<T>(self.x.to_int(), other.x.to_int(), t.to_int()),
            lerp_fits::<T>(self.y.to_int(), other.y.to_int(), t.to_int()),
            lerp_fits::<T>(self.z.to_int(), other.z.to_int(), t.to_int()),
        ensures
            r.x.to_int() == lerp_int(self.x.to_int(), other.x.to_int(), t.to_int()),
            r.y.to_int() == lerp_int(self.y.to_int(), other.y.to_int(), t.to_int()),
            r.z.to_int() == lerp_int(self.z.to_int(), other.z.to_int(), t.to_int()),
    {
        Self::new(
            Self::lerp_scalar(self.x, other.x, t),
            Self::lerp_scalar(self.y, other.y, t),
            Self::lerp_scalar(self.z, other.z, t),
        )
    }
}

impl<K: Geometry, T: Signed> Tuple3<K, T> {
    /// The absolute value of each component; `MIN` has none within the type.
    pub fn abs(self) -> (r: Self)
        requires
            T::lowest() < self.x.to_int(),
            T::lowest() < self.y.to_int(),
            T::lowest() < self.z.to_int(),
        ensures
            r.x.to_int() == abs_int(self.x.to_int()),
            r.y.to_int() == abs_int(self.y.to_int()),
            r.z.to_int() == abs_int(self.z.to_int()),
    {
        Self::new(self.x.abs(), self.y.abs(), self.z.abs())
    }
}

impl<K: Geometry, T: PartialPreOrd + Copy> Tuple3<K, T> {
    /// The smallest component: the reduction `min(x, min(y, z))`.
    pub open spec fn spec_min_value(self) -> T {
        min_of(self.x, min_of(self.y, self.z))
    }

    /// The largest component: the reduction `max(x, max(y, z))`.
    pub open spec fn spec_max_value(self) -> T {
        max_of(self.x, max_of(self.y, self.z))
    }

    /// The index of the smallest component, the earliest one on a tie: an
    /// index moves on only to a component strictly below it.
    pub open spec fn spec_min_index(self) -> int {
        let i = if self.y.lt_spec(self.x) { 1int } else { 0int };
        if self.z.lt_spec(self.component(i)) { 2 } else { i }
    }

    /// The index of the largest component, the earliest one on a tie: an
    /// index moves on only to a component strictly above it.
    pub open spec fn spec_max_index(self) -> int {
        let i = if self.x.lt_spec(self.y) { 1int } else { 0int };
        if self.component(i).lt_spec(self.z) { 2 } else { i }
    }

    /// The component-wise minimum.
    pub fn min(self, other: Self) -> (r: Self)
        ensures
            r == Self::spec_new(min_of(self.x, other.x), min_of(self.y, other.y), min_of(self.z, other.z)),
    {
        Self::new(
            PartialPreOrd::min(self.x, other.x),
            PartialPreOrd::min(self.y, other.y),
            PartialPreOrd::min(self.z, other.z),
        )
    }

    /// The component-wise maximum.
    pub fn max(self, other: Self) -> (r: Self)
        ensures
            r == Self::spec_new(max_of(self.x, other.x), max_of(self.y, other.y), max_of(self.z, other.z)),
    {
        Self::new(
            PartialPreOrd::max(self.x, other.x),
            PartialPreOrd::max(self.y, other.y),
            PartialPreOrd::max(self.z, other.z),
        )
    }

    /// The smallest component.
    pub fn min_component_value(self) -> (r: T)
        ensures
            r == self.spec_min_value(),
    {
        PartialPreOrd::min(self.x, PartialPreOrd::min(self.y, self.z))
    }

    /// The largest component.
    pub fn max_component_value(self) -> (r: T)
        ensures
            r == self.spec_max_value(),
    {
        PartialPreOrd::max(self.x, PartialPreOrd::max(self.y, self.z))
    }

    /// The index of the smallest component; the earliest one on a tie.
    pub fn min_component_index(self) -> (r: usize)
        ensures
            r == self.spec_min_index(),
    {
        let mut best: usize = 0;
        if self.y.precedes(&self.x) {
            best = 1;
        }
        if self.z.precedes(&self.get(best)) {
            best = 2;
        }
        best
    }

    /// The index of the largest component; the earliest one on a tie.
    pub fn max_component_index(self) -> (r: usize)
        ensures
            r == self.spec_max_index(),
    {
        let mut best: usize = 0;
        if self.x.precedes(&self.y) {
            best = 1;
        }
        if self.get(best).precedes(&self.z) {
            best = 2;
        }
        best
    }
}

impl<K: Geometry, T: Number> Tuple3<K, T> {
    /// The same tuple over the scalar type `U`: `Some` exactly where `U`
    /// holds every component, with each value kept.
    pub fn cast<U: Number>(self) -> (r: Option<Tuple3<K, U>>)
        ensures
            r == self.spec_cast::<U>(),
    {
        let (nx, mx) = self.x.to_sign_magnitude();
        let (ny, my) = self.y.to_sign_magnitude();
        let (nz, mz) = self.z.to_sign_magnitude();
        match (U::from_sign_magnitude(nx, mx), U::from_sign_magnitude(ny, my), U::from_sign_magnitude(nz, mz)) {
            (Some(a), Some(b), Some(c)) => {
                proof {
                    U::lemma_from_int(self.x.to_int());
                    U::lemma_from_int(self.y.to_int());
                    U::lemma_from_int(self.z.to_int());
                    U::lemma_value(a, U::from_int(self.x.to_int()));
                    U::lemma_value(b, U::from_int(self.y.to_int()));
                    U::lemma_value(c, U::from_int(self.z.to_int()));
                }
                Some(Tuple3::new(a, b, c))
            },
            _ => None,
        }
    }
}

impl<K: Geometry, T: Number> Tuple3<K, T> {
    /// The text of the tuple: the kind's name and the arity, then the
    /// components in decimal between parentheses, separated by `, `, as in
    /// `Vector3(-1, 10, 2)`.
    pub fn to_string(&self) -> (r: String)
        ensures
            r@ == K::spec_name() + "3("@ + signed_decimal(self.x.to_int()) + ", "@ + signed_decimal(self.y.to_int()) + ", "@ + signed_decimal(self.z.to_int()) + ")"@,
    {
        let mut s = String::from_str(K::name());
        s.append("3(");
        append_number(&mut s, self.x);
        s.append(", ");
        append_number(&mut s, self.y);
        s.append(", ");
        append_number(&mut s, self.z);
        s.append(")");
        s
    }
}

impl<K: Geometry> Tuple3<K, bool> {
    /// The tuple over the integer scalar `U` with 1 for each `true` and 0 for
    /// each `false`.
    pub fn to_number<U: Number>(self) -> (r: Tuple3<K, U>)
        ensures
            r == Tuple3::<K, U>::spec_new(
                U::from_int(if self.x { 1 } else { 0 }),
                U::from_int(if self.y { 1 } else { 0 }),
                U::from_int(if self.z { 1 } else { 0 }),
            ),
    {
        let zero = U::zero();
        let one = U::one();
        proof {
            U::lemma_value(zero, one);
            U::lemma_from_int(0);
            U::lemma_from_int(1);
            U::lemma_value(zero, U::from_int(0));
            U::lemma_value(one, U::from_int(1));
        }
        Tuple3::new(
            if self.x { one } else { zero },
            if self.y { one } else { zero },
            if self.z { one } else { zero },
        )
    }
}

impl<K: Geometry, T: Copy + core::ops::Add<Output = T>> Tuple3<K, T> {
    /// `self = self + rhs`.
    pub fn add_assign(&mut self, rhs: Self)
        requires
            old(self).add_req(rhs),
        ensures
            T::obeys_add_spec() ==> *final(self) == old(self).add_spec(rhs),
    {
        *self = *self + rhs;
    }
}

impl<K: Geometry, T: Copy + core::ops::Sub<Output = T>> Tuple3<K, T> {
    /// `self = self - rhs`.
    pub fn sub_assign(&mut self, rhs: Self)
        requires
            old(self).sub_req(rhs),
        ensures
            T::obeys_sub_spec() ==> *final(self) == old(self).sub_spec(rhs),
    {
        *self = *self - rhs;
    }
}

impl<K: Geometry, T: Copy + core::ops::Mul<Output = T>> Tuple3<K, T> {
    /// `self = self * s`.
    pub fn mul_assign(&mut self, s: T)
        requires
            old(self).mul_req(s),
        ensures
            <T as MulSpec<T>>::obeys_mul_spec() ==> *final(self) == old(self).mul_spec(s),
    {
        *self = *self * s;
    }
}

impl<K: Geometry, T: Copy + core::ops::Div<Output = T>> Tuple3<K, T> {
    /// `self = self / s`.
    pub fn div_assign(&mut self, s: T)
        requires
            old(self).div_req(s),
        ensures
            <T as DivSpec<T>>::obeys_div_spec() ==> *final(self) == old(self).div_spec(s),
    {
        *self = *self / s;
    }
}

impl<K: Geometry, T: core::ops::Add<Output = T>> core::ops::Add for Tuple3<K, T> {
    type Output = Self;

    /// The component-wise sum.
    fn add(self, rhs: Self) -> (r: Self) {
        Self::new(self.x + rhs.x, self.y + rhs.y, self.z + rhs.z)
    }
}

impl<K: Geometry, T: core::ops::Add<Output = T>> vstd::std_specs::ops::AddSpecImpl for Tuple3<K, T> {
    open spec fn obeys_add_spec() -> bool {
        T::obeys_add_spec()
    }

    open spec fn add_req(self, rhs: Self) -> bool {
        self.x.add_req(rhs.x) && self.y.add_req(rhs.y) && self.z.add_req(rhs.z)
    }

    open spec fn add_spec(self, rhs: Self) -> Self {
        Self::spec_new(self.x.add_spec(rhs.x), self.y.add_spec(rhs.y), self.z.add_spec(rhs.z))
    }
}

impl<K: Geometry, T: core::ops::Sub<Output = T>> core::ops::Sub for Tuple3<K, T> {
    type Output = Self;

    /// The component-wise difference.
    fn sub(self, rhs: Self) -> (r: Self) {
        Self::new(self.x - rhs.x, self.y - rhs.y, self.z - rhs.z)
    }
}

impl<K: Geometry, T: core::ops::Sub<Output = T>> vstd::std_specs::ops::SubSpecImpl for Tuple3<K, T> {
    open spec fn obeys_sub_spec() -> bool {
        T::obeys_sub_spec()
    }

    open spec fn sub_req(self, rhs: Self) -> bool {
        self.x.sub_req(rhs.x) && self.y.sub_req(rhs.y) && self.z.sub_req(rhs.z)
    }

    open spec fn sub_spec(self, rhs: Self) -> Self {
        Self::spec_new(self.x.sub_spec(rhs.x), self.y.sub_spec(rhs.y), self.z.sub_spec(rhs.z))
    }
}

impl<K: Geometry, T: core::ops::Neg<Output = T>> core::ops::Neg for Tuple3<K, T> {
    type Output = Self;

    /// The component-wise negation.
    fn neg(self) -> (r: Self) {
        Self::new(self.x.neg(), self.y.neg(), self.z.neg())
    }
}

impl<K: Geometry, T: core::ops::Neg<Output = T>> vstd::std_specs::ops::NegSpecImpl for Tuple3<K, T> {
    open spec fn obeys_neg_spec() -> bool {
        T::obeys_neg_spec()
    }

    open spec fn neg_req(self) -> bool {
        self.x.neg_req() && self.y.neg_req() && self.z.neg_req()
    }

    open spec fn neg_spec(self) -> Self {
        Self::spec_new(self.x.neg_spec(), self.y.neg_spec(), self.z.neg_spec())
    }
}

impl<K: Geometry, T: Copy + core::ops::Mul<Output = T>> core::ops::Mul<T> for Tuple3<K, T> {
    type Output = Self;

    /// Each component times the scalar `s`.
    fn mul(self, s: T) -> (r: Self) {
        Self::new(self.x * s, self.y * s, self.z * s)
    }
}

impl<K: Geometry, T: Copy + core::ops::Mul<Output = T>> vstd::std_specs::ops::MulSpecImpl<T> for Tuple3<K, T> {
    open spec fn obeys_mul_spec() -> bool {
        <T as MulSpec<T>>::obeys_mul_spec()
    }

    open spec fn mul_req(self, s: T) -> bool {
        <T as MulSpec<T>>::mul_req(self.x, s) && <T as MulSpec<T>>::mul_req(self.y, s) && <T as MulSpec<T>>::mul_req(self.z, s)
    }

    open spec fn mul_spec(self, s: T) -> Self {
        Self::spec_new(<T as MulSpec<T>>::mul_spec(self.x, s), <T as MulSpec<T>>::mul_spec(self.y, s), <T as MulSpec<T>>::mul_spec(self.z, s))
    }
}

impl<K: Geometry, T: Copy + core::ops::Div<Output = T>> core::ops::Div<T> for Tuple3<K, T> {
    type Output = Self;

    /// Each component divided by the scalar `s`.
    fn div(self, s: T) -> (r: Self) {
        Self::new(self.x / s, self.y / s, self.z / s)
    }
}

impl<K: Geometry, T: Copy + core::ops::Div<Output = T>> vstd::std_specs::ops::DivSpecImpl<T> for Tuple3<K, T> {
    open spec fn obeys_div_spec() -> bool {
        <T as DivSpec<T>>::obeys_div_spec()
    }

    open spec fn div_req(self, s: T) -> bool {
        self.x.div_req(s) && self.y.div_req(s) && self.z.div_req(s)
    }

    open spec fn div_spec(self, s: T) -> Self {
        Self::spec_new(self.x.div_spec(s), self.y.div_spec(s), self.z.div_spec(s))
    }
}

impl<T> From<Tuple3<PointKind, T>> for Tuple3<VectorKind, T> {
    /// The vector from the origin to the point.
    fn from(p: Tuple3<PointKind, T>) -> (r: Self) {
        Self::new(p.x, p.y, p.z)
    }
}

impl<T> vstd::std_specs::convert::FromSpecImpl<Tuple3<PointKind, T>> for Tuple3<VectorKind, T> {
    open spec fn obeys_from_spec() -> bool {
        true
    }

    open spec fn from_spec(p: Tuple3<PointKind, T>) -> Self {
        Self::spec_new(p.x, p.y, p.z)
    }
}

impl<T> From<Tuple3<NormalKind, T>> for Tuple3<VectorKind, T> {
    /// The vector with the components of the normal.
    fn from(n: Tuple3<NormalKind, T>) -> (r: Self) {
        Self::new(n.x, n.y, n.z)
    }
}

impl<T> vstd::std_specs::convert::FromSpecImpl<Tuple3<NormalKind, T>> for Tuple3<VectorKind, T> {
    open spec fn obeys_from_spec() -> bool {
        true
    }

    open spec fn from_spec(n: Tuple3<NormalKind, T>) -> Self {
        Self::spec_new(n.x, n.y, n.z)
    }
}

impl<K, T> core::ops::Index<usize> for Tuple3<K, T> {
    type Output = T;

    /// Component `i`; any index from 3 on is refused.
    fn index(&self, i: usize) -> (r: &T)
        ensures
            *r == self.component(i as int),
    {
        let c = [&self.x, &self.y, &self.z];
        c[i]
    }
}

impl<K, T> vstd::std_specs::core::IndexSpecImpl<usize> for Tuple3<K, T> {
    open spec fn index_req(&self, i: &usize) -> bool {
        *i < 3
    }
}

} // verus!

verus! {

/// Adding the zero tuple, subtracting a tuple from itself and scaling by one
/// are all defined, and give the tuple, the zero tuple and the tuple back.
pub proof fn lemma_arithmetic_identities_3<K: Geometry, T: Number>(v: Tuple3<K, T>)
    ensures
        v.add_req(Tuple3::spec_splat(0)),
        v.add_spec(Tuple3::spec_splat(0)) == v,
        v.sub_req(v),
        v.sub_spec(v) == Tuple3::<K, T>::spec_splat(0),
        v.mul_req(T::from_int(1)),
        v.mul_spec(T::from_int(1)) == v,
{
    T::lemma_value(v.x, v.x);
    T::lemma_value(v.y, v.y);
    T::lemma_value(v.z, v.z);
    T::lemma_from_int(0);
    T::lemma_from_int(1);
    let o = T::from_int(0);
    let one = T::from_int(1);
    T::lemma_arith(v.x, o);
    T::lemma_arith(v.y, o);
    T::lemma_arith(v.z, o);
    T::lemma_arith(v.x, v.x);
    T::lemma_arith(v.y, v.y);
    T::lemma_arith(v.z, v.z);
    T::lemma_arith(v.x, one);
    T::lemma_arith(v.y, one);
    T::lemma_arith(v.z, one);
    T::lemma_value(v.x.add_spec(o), v.x);
    T::lemma_value(v.y.add_spec(o), v.y);
    T::lemma_value(v.z.add_spec(o), v.z);
    T::lemma_value(v.x.sub_spec(v.x), o);
    T::lemma_value(v.y.sub_spec(v.y), o);
    T::lemma_value(v.z.sub_spec(v.z), o);
    T::lemma_value(v.x.mul_spec(one), v.x);
    T::lemma_value(v.y.mul_spec(one), v.y);
    T::lemma_value(v.z.mul_spec(one), v.z);
    Tuple3::lemma_components_equal(v.add_spec(Tuple3::spec_splat(0)), v);
    Tuple3::lemma_components_equal(v.mul_spec(one), v);
}

/// Permuting by `[0, 1, 2]` gives the tuple back.
pub proof fn lemma_permute_identity_3<K: Geometry, T>(v: Tuple3<K, T>)
    ensures
        v.spec_permute(0, 1, 2) == v,
{
    Tuple3::lemma_components_equal(v.spec_permute(0, 1, 2), v);
}

/// Component `i` of the permuted tuple is component `p[i]` of the tuple.
pub proof fn lemma_permute_component_3<K: Geometry, T>(v: Tuple3<K, T>, p0: int, p1: int, p2: int, i: int)
    requires
        0 <= p0 < 3,
        0 <= p1 < 3,
        0 <= p2 < 3,
        0 <= i < 3,
    ensures
        v.spec_permute(p0, p1, p2).component(i) == v.component(
            if i == 0 { p0 } else if i == 1 { p1 } else { p2 },
        ),
{
}

/// Where the components are pairwise comparable, the component at the index
/// of the minimum is the minimum, every earlier component lies strictly
/// above it and no later one lies strictly below it; the same holds of the
/// maximum the other way round.
pub proof fn lemma_index_consistency_3<K: Geometry, T: PartialPreOrd + Copy>(v: Tuple3<K, T>)
    requires
        comparable(v.x, v.y),
        comparable(v.x, v.z),
        comparable(v.y, v.z),
    ensures
        0 <= v.spec_min_index() < 3,
        v.component(v.spec_min_index()) == v.spec_min_value(),
        forall|j: int|
            0 <= j < v.spec_min_index() ==> v.component(v.spec_min_index()).lt_spec(
                #[trigger] v.component(j),
            ),
        forall|j: int|
            v.spec_min_index() < j < 3 ==> !(#[trigger] v.component(j)).lt_spec(
                v.component(v.spec_min_index()),
            ),
        0 <= v.spec_max_index() < 3,
        v.component(v.spec_max_index()) == v.spec_max_value(),
        forall|j: int|
            0 <= j < v.spec_max_index() ==> (#[trigger] v.component(j)).lt_spec(
                v.component(v.spec_max_index()),
            ),
        forall|j: int|
            v.spec_max_index() < j < 3 ==> !v.component(v.spec_max_index()).lt_spec(
                #[trigger] v.component(j),
            ),
{
    T::lemma_strict_order(v.x, v.y, v.z);
    T::lemma_strict_order(v.x, v.z, v.y);
    T::lemma_strict_order(v.y, v.x, v.z);
    T::lemma_strict_order(v.y, v.z, v.x);
    T::lemma_strict_order(v.z, v.x, v.y);
    T::lemma_strict_order(v.z, v.y, v.x);
    T::lemma_strict_order(v.x, v.y, v.x);
    T::lemma_strict_order(v.y, v.z, v.y);
    T::lemma_strict_order(v.x, v.z, v.x);
    T::lemma_strict_order(v.y, v.x, v.y);
    T::lemma_strict_order(v.z, v.y, v.z);
    T::lemma_strict_order(v.z, v.x, v.z);
}

/// A tuple whose components `U` holds converts to `U` and back to itself.
pub proof fn lemma_cast_round_trip_3<K: Geometry, T: Number, U: Number>(v: Tuple3<K, T>)
    requires
        fits::<U>(v.x.to_int()),
        fits::<U>(v.y.to_int()),
        fits::<U>(v.z.to_int()),
    ensures
        v.spec_cast::<U>() is Some,
        v.spec_cast::<U>().unwrap().spec_cast::<T>() == Some(v),
{
    U::lemma_from_int(v.x.to_int());
    U::lemma_from_int(v.y.to_int());
    U::lemma_from_int(v.z.to_int());
    T::lemma_value(v.x, v.x);
    T::lemma_value(v.y, v.y);
    T::lemma_value(v.z, v.z);
    T::lemma_from_int(v.x.to_int());
    T::lemma_from_int(v.y.to_int());
    T::lemma_from_int(v.z.to_int());
    T::lemma_value(v.x, T::from_int(v.x.to_int()));
    T::lemma_value(v.y, T::from_int(v.y.to_int()));
    T::lemma_value(v.z, T::from_int(v.z.to_int()));
    let w = v.spec_cast::<U>().unwrap();
    Tuple3::lemma_components_equal(w.spec_cast::<T>().unwrap(), v);
}

} // verus!
