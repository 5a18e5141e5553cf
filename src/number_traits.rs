use vstd::prelude::*;
use vstd::std_specs::cmp::PartialOrdSpec;
use vstd::std_specs::ops::{AddSpec, MulSpec, SubSpec};

verus! {

/// `n` lies within the bounds of `T`.
pub open spec fn fits<T: Number>(n: int) -> bool {
    T::lowest() <= n <= T::highest()
}

/// The absolute value of `n`.
pub open spec fn abs_int(n: int) -> int {
    if n < 0 {
        -n
    } else {
        n
    }
}

/// `a * b + c`.
pub open spec fn mul_add_int(a: int, b: int, c: int) -> int {
    a * b + c
}

/// `a * b + c` and its intermediate product lie within the bounds of `T`.
pub open spec fn mul_add_fits<T: Number>(a: int, b: int, c: int) -> bool {
    fits::<T>(a * b) && fits::<T>(mul_add_int(a, b, c))
}

/// The linear interpolation `(1 - t) * a + t * b`.
pub open spec fn lerp_int(a: int, b: int, t: int) -> int {
    (1 - t) * a + t * b
}

/// `(1 - t) * a + t * b` and every intermediate value lie within the bounds
/// of `T`.
pub open spec fn lerp_fits<T: Number>(a: int, b: int, t: int) -> bool {
    fits::<T>(1 - t) && fits::<T>((1 - t) * a) && fits::<T>(t * b) && fits::<T>(lerp_int(a, b, t))
}

/// The scalar capability of the tuple types: an integer type with its
/// additive identity, its unit, its bounds, a NaN test and `min` / `max`.
///
/// `to_int` is the mathematical value of a scalar; `lowest` and `highest`
/// are the bounds of the type.
pub trait Number: Copy + PartialOrd + core::ops::Add<Output = Self> + core::ops::Sub<
    Output = Self,
> + core::ops::Mul<Output = Self> {
    /// The mathematical value of `self`.
    spec fn to_int(self) -> int;

    /// The value of `MIN`.
    spec fn lowest() -> int;

    /// The value of `MAX`.
    spec fn highest() -> int;

    /// Every value lies within the bounds, a value is fixed by its integer, and
    /// the order of the comparisons is the order of the integers.
    proof fn lemma_value(a: Self, b: Self)
        ensures
            Self::lowest() <= 0,
            0 < Self::highest(),
            Self::lowest() <= a.to_int(),
            a.to_int() <= Self::highest(),
            a.to_int() == b.to_int() ==> a == b,
            Self::obeys_partial_cmp_spec(),
            (a.partial_cmp_spec(&b) == Some(core::cmp::Ordering::Less)) <==> (a.to_int() < b.to_int()),
    ;

    /// `+`, `-` and `*` are defined exactly where the integer result lies
    /// within the bounds, and give that result there.
    proof fn lemma_arith(a: Self, b: Self)
        ensures
            Self::obeys_add_spec(),
            Self::obeys_sub_spec(),
            Self::obeys_mul_spec(),
            a.add_req(b) <==> Self::lowest() <= a.to_int() + b.to_int() <= Self::highest(),
            a.sub_req(b) <==> Self::lowest() <= a.to_int() - b.to_int() <= Self::highest(),
            a.mul_req(b) <==> Self::lowest() <= a.to_int() * b.to_int() <= Self::highest(),
            a.add_req(b) ==> a.add_spec(b).to_int() == a.to_int() + b.to_int(),
            a.sub_req(b) ==> a.sub_spec(b).to_int() == a.to_int() - b.to_int(),
            a.mul_req(b) ==> a.mul_spec(b).to_int() == a.to_int() * b.to_int(),
    ;

    /// The value of the type whose integer is `n`, where `n` lies within the
    /// bounds.
    spec fn from_int(n: int) -> Self;

    /// `from_int` gives back the integer it was given.
    proof fn lemma_from_int(n: int)
        requires
            Self::lowest() <= n <= Self::highest(),
        ensures
            Self::from_int(n).to_int() == n,
    ;

    /// Sign and magnitude of the value: whether it is negative, and its
    /// absolute value.
    fn to_sign_magnitude(self) -> (r: (bool, u128))
        ensures
            r.0 <==> self.to_int() < 0,
            r.1 == abs_int(self.to_int()),
    ;

    /// The value with the given sign and magnitude, where the type holds it.
    fn from_sign_magnitude(negative: bool, magnitude: u128) -> (r: Option<Self>)
        ensures
            ({
                let n = if negative { -magnitude } else { magnitude as int };
                match r {
                    Some(v) => Self::lowest() <= n <= Self::highest() && v.to_int() == n,
                    None => !(Self::lowest() <= n <= Self::highest()),
                }
            }),
    ;

    /// The additive identity.
    fn zero() -> (r: Self)
        ensures
            r.to_int() == 0,
    ;

    /// The multiplicative unit (`ONE`).
    fn one() -> (r: Self)
        ensures
            r.to_int() == 1,
    ;

    /// The smallest value of the type (`MIN`).
    fn min_value() -> (r: Self)
        ensures
            r.to_int() == Self::lowest(),
    ;

    /// The largest value of the type (`MAX`).
    fn max_value() -> (r: Self)
        ensures
            r.to_int() == Self::highest(),
    ;

    /// Whether `self` is NaN: never, for the integer types.
    fn is_nan(&self) -> (r: bool)
        ensures
            !r,
    {
        false
    }

    /// The smaller of the two values.
    fn min(self, b: Self) -> (r: Self)
        ensures
            r.to_int() == (if self.to_int() <= b.to_int() { self.to_int() } else { b.to_int() }),
    {
        proof {
            Self::lemma_value(b, self);
        }
        if b < self {
            b
        } else {
            self
        }
    }

    /// The larger of the two values.
    fn max(self, b: Self) -> (r: Self)
        ensures
            r.to_int() == (if self.to_int() <= b.to_int() { b.to_int() } else { self.to_int() }),
    {
        proof {
            Self::lemma_value(self, b);
        }
        if self < b {
            b
        } else {
            self
        }
    }
}

/// A signed scalar: one with an absolute value.
pub trait Signed: Number {
    /// The absolute value; `MIN` has none within the type.
    fn abs(self) -> (r: Self)
        requires
            Self::lowest() < self.to_int(),
        ensures
            r.to_int() == abs_int(self.to_int()),
    ;
}

impl Number for i8 {
    open spec fn to_int(self) -> int {
        self as int
    }

    open spec fn lowest() -> int {
        -0x80
    }

    open spec fn highest() -> int {
        0x7f
    }

    proof fn lemma_value(a: i8, b: i8) {
        assert(<i8 as Number>::lowest() == i8::MIN);
        assert(<i8 as Number>::highest() == i8::MAX);
        assert(<i8 as PartialOrdSpec>::obeys_partial_cmp_spec());
    }

    proof fn lemma_arith(a: i8, b: i8) {
    }

    open spec fn from_int(n: int) -> i8 {
        n as i8
    }

    proof fn lemma_from_int(n: int) {
    }

    fn to_sign_magnitude(self) -> (r: (bool, u128)) {
        if self < 0 {
            (true, ((-(self as i128 + 1)) as u128) + 1)
        } else {
            (false, self as u128)
        }
    }

    fn from_sign_magnitude(negative: bool, magnitude: u128) -> (r: Option<i8>) {
        if negative && magnitude > 0 {
            if magnitude <= (i8::MAX as u128) + 1 {
                Some((-1 - ((magnitude - 1) as i128)) as i8)
            } else {
                None
            }
        } else if magnitude <= i8::MAX as u128 {
            Some(magnitude as i8)
        } else {
            None
        }
    }

    fn zero() -> (r: i8) {
        0
    }

    fn one() -> (r: i8) {
        1
    }

    fn min_value() -> (r: i8) {
        i8::MIN
    }

    fn max_value() -> (r: i8) {
        i8::MAX
    }
}

impl Signed for i8 {
    fn abs(self) -> (r: i8) {
        if self < 0 {
            -self
        } else {
            self
        }
    }
}

impl Number for i16 {
    open spec fn to_int(self) -> int {
        self as int
    }

    open spec fn lowest() -> int {
        -0x8000
    }

    open spec fn highest() -> int {
        0x7fff
    }

    proof fn lemma_value(a: i16, b: i16) {
        assert(<i16 as Number>::lowest() == i16::MIN);
        assert(<i16 as Number>::highest() == i16::MAX);
        assert(<i16 as PartialOrdSpec>::obeys_partial_cmp_spec());
    }

    proof fn lemma_arith(a: i16, b: i16) {
    }

    open spec fn from_int(n: int) -> i16 {
        n as i16
    }

    proof fn lemma_from_int(n: int) {
    }

    fn to_sign_magnitude(self) -> (r: (bool, u128)) {
        if self < 0 {
            (true, ((-(self as i128 + 1)) as u128) + 1)
        } else {
            (false, self as u128)
        }
    }

    fn from_sign_magnitude(negative: bool, magnitude: u128) -> (r: Option<i16>) {
        if negative && magnitude > 0 {
            if magnitude <= (i16::MAX as u128) + 1 {
                Some((-1 - ((magnitude - 1) as i128)) as i16)
            } else {
                None
            }
        } else if magnitude <= i16::MAX as u128 {
            Some(magnitude as i16)
        } else {
            None
        }
    }

    fn zero() -> (r: i16) {
        0
    }

    fn one() -> (r: i16) {
        1
    }

    fn min_value() -> (r: i16) {
        i16::MIN
    }

    fn max_value() -> (r: i16) {
        i16::MAX
    }
}

impl Signed for i16 {
    fn abs(self) -> (r: i16) {
        if self < 0 {
            -self
        } else {
            self
        }
    }
}

impl Number for i32 {
    open spec fn to_int(self) -> int {
        self as int
    }

    open spec fn lowest() -> int {
        -0x8000_0000
    }

    open spec fn highest() -> int {
        0x7fff_ffff
    }

    proof fn lemma_value(a: i32, b: i32) {
        assert(<i32 as Number>::lowest() == i32::MIN);
        assert(<i32 as Number>::highest() == i32::MAX);
        assert(<i32 as PartialOrdSpec>::obeys_partial_cmp_spec());
    }

    proof fn lemma_arith(a: i32, b: i32) {
    }

    open spec fn from_int(n: int) -> i32 {
        n as i32
    }

    proof fn lemma_from_int(n: int) {
    }

    fn to_sign_magnitude(self) -> (r: (bool, u128)) {
        if self < 0 {
            (true, ((-(self as i128 + 1)) as u128) + 1)
        } else {
            (false, self as u128)
        }
    }

    fn from_sign_magnitude(negative: bool, magnitude: u128) -> (r: Option<i32>) {
        if negative && magnitude > 0 {
            if magnitude <= (i32::MAX as u128) + 1 {
                Some((-1 - ((magnitude - 1) as i128)) as i32)
            } else {
                None
            }
        } else if magnitude <= i32::MAX as u128 {
            Some(magnitude as i32)
        } else {
            None
        }
    }

    fn zero() -> (r: i32) {
        0
    }

    fn one() -> (r: i32) {
        1
    }

    fn min_value() -> (r: i32) {
        i32::MIN
    }

    fn max_value() -> (r: i32) {
        i32::MAX
    }
}

impl Signed for i32 {
    fn abs(self) -> (r: i32) {
        if self < 0 {
            -self
        } else {
            self
        }
    }
}

impl Number for i64 {
    open spec fn to_int(self) -> int {
        self as int
    }

    open spec fn lowest() -> int {
        -0x8000_0000_0000_0000
    }

    open spec fn highest() -> int {
        0x7fff_ffff_ffff_ffff
    }

    proof fn lemma_value(a: i64, b: i64) {
        assert(<i64 as Number>::lowest() == i64::MIN);
        assert(<i64 as Number>::highest() == i64::MAX);
        assert(<i64 as PartialOrdSpec>::obeys_partial_cmp_spec());
    }

    proof fn lemma_arith(a: i64, b: i64) {
    }

    open spec fn from_int(n: int) -> i64 {
        n as i64
    }

    proof fn lemma_from_int(n: int) {
    }

    fn to_sign_magnitude(self) -> (r: (bool, u128)) {
        if self < 0 {
            (true, ((-(self as i128 + 1)) as u128) + 1)
        } else {
            (false, self as u128)
        }
    }

    fn from_sign_magnitude(negative: bool, magnitude: u128) -> (r: Option<i64>) {
        if negative && magnitude > 0 {
            if magnitude <= (i64::MAX as u128) + 1 {
                Some((-1 - ((magnitude - 1) as i128)) as i64)
            } else {
                None
            }
        } else if magnitude <= i64::MAX as u128 {
            Some(magnitude as i64)
        } else {
            None
        }
    }

    fn zero() -> (r: i64) {
        0
    }

    fn one() -> (r: i64) {
        1
    }

    fn min_value() -> (r: i64) {
        i64::MIN
    }

    fn max_value() -> (r: i64) {
        i64::MAX
    }
}

impl Signed for i64 {
    fn abs(self) -> (r: i64) {
        if self < 0 {
            -self
        } else {
            self
        }
    }
}

impl Number for i128 {
    open spec fn to_int(self) -> int {
        self as int
    }

    open spec fn lowest() -> int {
        -0x8000_0000_0000_0000_0000_0000_0000_0000
    }

    open spec fn highest() -> int {
        0x7fff_ffff_ffff_ffff_ffff_ffff_ffff_ffff
    }

    proof fn lemma_value(a: i128, b: i128) {
        assert(<i128 as Number>::lowest() == i128::MIN);
        assert(<i128 as Number>::highest() == i128::MAX);
        assert(<i128 as PartialOrdSpec>::obeys_partial_cmp_spec());
    }

    proof fn lemma_arith(a: i128, b: i128) {
    }

    open spec fn from_int(n: int) -> i128 {
        n as i128
    }

    proof fn lemma_from_int(n: int) {
    }

    fn to_sign_magnitude(self) -> (r: (bool, u128)) {
        if self < 0 {
            (true, ((-(self as i128 + 1)) as u128) + 1)
        } else {
            (false, self as u128)
        }
    }

    fn from_sign_magnitude(negative: bool, magnitude: u128) -> (r: Option<i128>) {
        if negative && magnitude > 0 {
            if magnitude <= (i128::MAX as u128) + 1 {
                Some((-1 - ((magnitude - 1) as i128)) as i128)
            } else {
                None
            }
        } else if magnitude <= i128::MAX as u128 {
            Some(magnitude as i128)
        } else {
            None
        }
    }

    fn zero() -> (r: i128) {
        0
    }

    fn one() -> (r: i128) {
        1
    }

    fn min_value() -> (r: i128) {
        i128::MIN
    }

    fn max_value() -> (r: i128) {
        i128::MAX
    }
}

impl Signed for i128 {
    fn abs(self) -> (r: i128) {
        if self < 0 {
            -self
        } else {
            self
        }
    }
}

impl Number for isize {
    open spec fn to_int(self) -> int {
        self as int
    }

    open spec fn lowest() -> int {
        isize::MIN as int
    }

    open spec fn highest() -> int {
        isize::MAX as int
    }

    proof fn lemma_value(a: isize, b: isize) {
        assert(<isize as Number>::lowest() == isize::MIN);
        assert(<isize as Number>::highest() == isize::MAX);
        assert(<isize as PartialOrdSpec>::obeys_partial_cmp_spec());
    }

    proof fn lemma_arith(a: isize, b: isize) {
    }

    open spec fn from_int(n: int) -> isize {
        n as isize
    }

    proof fn lemma_from_int(n: int) {
    }

    fn to_sign_magnitude(self) -> (r: (bool, u128)) {
        if self < 0 {
            (true, ((-(self as i128 + 1)) as u128) + 1)
        } else {
            (false, self as u128)
        }
    }

    fn from_sign_magnitude(negative: bool, magnitude: u128) -> (r: Option<isize>) {
        if negative && magnitude > 0 {
            if magnitude <= (isize::MAX as u128) + 1 {
                Some((-1 - ((magnitude - 1) as i128)) as isize)
            } else {
                None
            }
        } else if magnitude <= isize::MAX as u128 {
            Some(magnitude as isize)
        } else {
            None
        }
    }

    fn zero() -> (r: isize) {
        0
    }

    fn one() -> (r: isize) {
        1
    }

    fn min_value() -> (r: isize) {
        isize::MIN
    }

    fn max_value() -> (r: isize) {
        isize::MAX
    }
}

impl Signed for isize {
    fn abs(self) -> (r: isize) {
        if self < 0 {
            -self
        } else {
            self
        }
    }
}

impl Number for u8 {
    open spec fn to_int(self) -> int {
        self as int
    }

    open spec fn lowest() -> int {
        0
    }

    open spec fn highest() -> int {
        0xff
    }

    proof fn lemma_value(a: u8, b: u8) {
        assert(<u8 as Number>::lowest() == u8::MIN);
        assert(<u8 as Number>::highest() == u8::MAX);
        assert(<u8 as PartialOrdSpec>::obeys_partial_cmp_spec());
    }

    proof fn lemma_arith(a: u8, b: u8) {
    }

    open spec fn from_int(n: int) -> u8 {
        n as u8
    }

    proof fn lemma_from_int(n: int) {
    }

    fn to_sign_magnitude(self) -> (r: (bool, u128)) {
        (false, self as u128)
    }

    fn from_sign_magnitude(negative: bool, magnitude: u128) -> (r: Option<u8>) {
        if negative && magnitude > 0 {
            None
        } else if magnitude <= u8::MAX as u128 {
            Some(magnitude as u8)
        } else {
            None
        }
    }

    fn zero() -> (r: u8) {
        0
    }

    fn one() -> (r: u8) {
        1
    }

    fn min_value() -> (r: u8) {
        u8::MIN
    }

    fn max_value() -> (r: u8) {
        u8::MAX
    }
}

impl Number for u16 {
    open spec fn to_int(self) -> int {
        self as int
    }

    open spec fn lowest() -> int {
        0
    }

    open spec fn highest() -> int {
        0xffff
    }

    proof fn lemma_value(a: u16, b: u16) {
        assert(<u16 as Number>::lowest() == u16::MIN);
        assert(<u16 as Number>::highest() == u16::MAX);
        assert(<u16 as PartialOrdSpec>::obeys_partial_cmp_spec());
    }

    proof fn lemma_arith(a: u16, b: u16) {
    }

    open spec fn from_int(n: int) -> u16 {
        n as u16
    }

    proof fn lemma_from_int(n: int) {
    }

    fn to_sign_magnitude(self) -> (r: (bool, u128)) {
        (false, self as u128)
    }

    fn from_sign_magnitude(negative: bool, magnitude: u128) -> (r: Option<u16>) {
        if negative && magnitude > 0 {
            None
        } else if magnitude <= u16::MAX as u128 {
            Some(magnitude as u16)
        } else {
            None
        }
    }

    fn zero() -> (r: u16) {
        0
    }

    fn one() -> (r: u16) {
        1
    }

    fn min_value() -> (r: u16) {
        u16::MIN
    }

    fn max_value() -> (r: u16) {
        u16::MAX
    }
}

impl Number for u32 {
    open spec fn to_int(self) -> int {
        self as int
    }

    open spec fn lowest() -> int {
        0
    }

    open spec fn highest() -> int {
        0xffff_ffff
    }

    proof fn lemma_value(a: u32, b: u32) {
        assert(<u32 as Number>::lowest() == u32::MIN);
        assert(<u32 as Number>::highest() == u32::MAX);
        assert(<u32 as PartialOrdSpec>::obeys_partial_cmp_spec());
    }

    proof fn lemma_arith(a: u32, b: u32) {
    }

    open spec fn from_int(n: int) -> u32 {
        n as u32
    }

    proof fn lemma_from_int(n: int) {
    }

    fn to_sign_magnitude(self) -> (r: (bool, u128)) {
        (false, self as u128)
    }

    fn from_sign_magnitude(negative: bool, magnitude: u128) -> (r: Option<u32>) {
        if negative && magnitude > 0 {
            None
        } else if magnitude <= u32::MAX as u128 {
            Some(magnitude as u32)
        } else {
            None
        }
    }

    fn zero() -> (r: u32) {
        0
    }

    fn one() -> (r: u32) {
        1
    }

    fn min_value() -> (r: u32) {
        u32::MIN
    }

    fn max_value() -> (r: u32) {
        u32::MAX
    }
}

impl Number for u64 {
    open spec fn to_int(self) -> int {
        self as int
    }

    open spec fn lowest() -> int {
        0
    }

    open spec fn highest() -> int {
        0xffff_ffff_ffff_ffff
    }

    proof fn lemma_value(a: u64, b: u64) {
        assert(<u64 as Number>::lowest() == u64::MIN);
        assert(<u64 as Number>::highest() == u64::MAX);
        assert(<u64 as PartialOrdSpec>::obeys_partial_cmp_spec());
    }

    proof fn lemma_arith(a: u64, b: u64) {
    }

    open spec fn from_int(n: int) -> u64 {
        n as u64
    }

    proof fn lemma_from_int(n: int) {
    }

    fn to_sign_magnitude(self) -> (r: (bool, u128)) {
        (false, self as u128)
    }

    fn from_sign_magnitude(negative: bool, magnitude: u128) -> (r: Option<u64>) {
        if negative && magnitude > 0 {
            None
        } else if magnitude <= u64::MAX as u128 {
            Some(magnitude as u64)
        } else {
            None
        }
    }

    fn zero() -> (r: u64) {
        0
    }

    fn one() -> (r: u64) {
        1
    }

    fn min_value() -> (r: u64) {
        u64::MIN
    }

    fn max_value() -> (r: u64) {
        u64::MAX
    }
}

impl Number for u128 {
    open spec fn to_int(self) -> int {
        self as int
    }

    open spec fn lowest() -> int {
        0
    }

    open spec fn highest() -> int {
        0xffff_ffff_ffff_ffff_ffff_ffff_ffff_ffff
    }

    proof fn lemma_value(a: u128, b: u128) {
        assert(<u128 as Number>::lowest() == u128::MIN);
        assert(<u128 as Number>::highest() == u128::MAX);
        assert(<u128 as PartialOrdSpec>::obeys_partial_cmp_spec());
    }

    proof fn lemma_arith(a: u128, b: u128) {
    }

    open spec fn from_int(n: int) -> u128 {
        n as u128
    }

    proof fn lemma_from_int(n: int) {
    }

    fn to_sign_magnitude(self) -> (r: (bool, u128)) {
        (false, self as u128)
    }

    fn from_sign_magnitude(negative: bool, magnitude: u128) -> (r: Option<u128>) {
        if negative && magnitude > 0 {
            None
        } else if magnitude <= u128::MAX as u128 {
            Some(magnitude as u128)
        } else {
            None
        }
    }

    fn zero() -> (r: u128) {
        0
    }

    fn one() -> (r: u128) {
        1
    }

    fn min_value() -> (r: u128) {
        u128::MIN
    }

    fn max_value() -> (r: u128) {
        u128::MAX
    }
}

impl Number for usize {
    open spec fn to_int(self) -> int {
        self as int
    }

    open spec fn lowest() -> int {
        0
    }

    open spec fn highest() -> int {
        usize::MAX as int
    }

    proof fn lemma_value(a: usize, b: usize) {
        assert(<usize as Number>::lowest() == usize::MIN);
        assert(<usize as Number>::highest() == usize::MAX);
        assert(<usize as PartialOrdSpec>::obeys_partial_cmp_spec());
    }

    proof fn lemma_arith(a: usize, b: usize) {
    }

    open spec fn from_int(n: int) -> usize {
        n as usize
    }

    proof fn lemma_from_int(n: int) {
    }

    fn to_sign_magnitude(self) -> (r: (bool, u128)) {
        (false, self as u128)
    }

    fn from_sign_magnitude(negative: bool, magnitude: u128) -> (r: Option<usize>) {
        if negative && magnitude > 0 {
            None
        } else if magnitude <= usize::MAX as u128 {
            Some(magnitude as usize)
        } else {
            None
        }
    }

    fn zero() -> (r: usize) {
        0
    }

    fn one() -> (r: usize) {
        1
    }

    fn min_value() -> (r: usize) {
        usize::MIN
    }

    fn max_value() -> (r: usize) {
        usize::MAX
    }
}

} // verus!
