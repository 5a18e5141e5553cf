use vstd::prelude::*;

verus! {

/// The smaller of `a` and `b` in the order of `lt_spec`; `a` when neither
/// lies below the other.
pub open spec fn min_of<T: PartialPreOrd>(a: T, b: T) -> T {
    if b.lt_spec(a) {
        b
    } else {
        a
    }
}

/// The larger of `a` and `b` in the order of `lt_spec`; `a` when neither
/// lies above the other.
pub open spec fn max_of<T: PartialPreOrd>(a: T, b: T) -> T {
    if a.lt_spec(b) {
        b
    } else {
        a
    }
}

/// `a` and `b` are equal or one lies strictly below the other.
pub open spec fn comparable<T: PartialPreOrd>(a: T, b: T) -> bool {
    a.lt_spec(b) || b.lt_spec(a) || a == b
}

/// A `min` / `max` that works the same way for every scalar type with an order,
/// used by the reductions of the tuple types.
///
/// `lt_spec` is the strict order that the comparisons decide.
pub trait PartialPreOrd: PartialOrd + Sized {
    /// `self` lies strictly below `other`.
    spec fn lt_spec(self, other: Self) -> bool;

    /// `lt_spec` is a strict order: irreflexive and transitive.
    proof fn lemma_strict_order(a: Self, b: Self, c: Self)
        ensures
            !a.lt_spec(a),
            a.lt_spec(b) && b.lt_spec(c) ==> a.lt_spec(c),
    ;

    /// Strict comparison in the order of `lt_spec`.
    fn precedes(&self, other: &Self) -> (r: bool)
        ensures
            r == self.lt_spec(*other),
    ;

    /// The smaller of the two; `self` when neither lies below the other.
    fn min(self, other: Self) -> (r: Self)
        ensures
            r == (if other.lt_spec(self) { other } else { self }),
    ;

    /// The larger of the two; `self` when neither lies above the other.
    fn max(self, other: Self) -> (r: Self)
        ensures
            r == (if self.lt_spec(other) { other } else { self }),
    ;
}

impl PartialPreOrd for bool {
    open spec fn lt_spec(self, other: bool) -> bool {
        !self && other
    }

    proof fn lemma_strict_order(a: bool, b: bool, c: bool) {
    }

    fn precedes(&self, other: &bool) -> (r: bool) {
        !*self && *other
    }

    fn min(self, other: bool) -> (r: bool) {
        self && other
    }

    fn max(self, other: bool) -> (r: bool) {
        self || other
    }
}

impl PartialPreOrd for i8 {
    open spec fn lt_spec(self, other: i8) -> bool {
        self < other
    }

    proof fn lemma_strict_order(a: i8, b: i8, c: i8) {
    }

    fn precedes(&self, other: &i8) -> (r: bool) {
        *self < *other
    }

    fn min(self, other: i8) -> (r: i8) {
        Ord::min(self, other)
    }

    fn max(self, other: i8) -> (r: i8) {
        Ord::max(self, other)
    }
}

impl PartialPreOrd for i16 {
    open spec fn lt_spec(self, other: i16) -> bool {
        self < other
    }

    proof fn lemma_strict_order(a: i16, b: i16, c: i16) {
    }

    fn precedes(&self, other: &i16) -> (r: bool) {
        *self < *other
    }

    fn min(self, other: i16) -> (r: i16) {
        Ord::min(self, other)
    }

    fn max(self, other: i16) -> (r: i16) {
        Ord::max(self, other)
    }
}

impl PartialPreOrd for i32 {
    open spec fn lt_spec(self, other: i32) -> bool {
        self < other
    }

    proof fn lemma_strict_order(a: i32, b: i32, c: i32) {
    }

    fn precedes(&self, other: &i32) -> (r: bool) {
        *self < *other
    }

    fn min(self, other: i32) -> (r: i32) {
        Ord::min(self, other)
    }

    fn max(self, other: i32) -> (r: i32) {
        Ord::max(self, other)
    }
}

impl PartialPreOrd for i64 {
    open spec fn lt_spec(self, other: i64) -> bool {
        self < other
    }

    proof fn lemma_strict_order(a: i64, b: i64, c: i64) {
    }

    fn precedes(&self, other: &i64) -> (r: bool) {
        *self < *other
    }

    fn min(self, other: i64) -> (r: i64) {
        Ord::min(self, other)
    }

    fn max(self, other: i64) -> (r: i64) {
        Ord::max(self, other)
    }
}

impl PartialPreOrd for i128 {
    open spec fn lt_spec(self, other: i128) -> bool {
        self < other
    }

    proof fn lemma_strict_order(a: i128, b: i128, c: i128) {
    }

    fn precedes(&self, other: &i128) -> (r: bool) {
        *self < *other
    }

    fn min(self, other: i128) -> (r: i128) {
        Ord::min(self, other)
    }

    fn max(self, other: i128) -> (r: i128) {
        Ord::max(self, other)
    }
}

impl PartialPreOrd for isize {
    open spec fn lt_spec(self, other: isize) -> bool {
        self < other
    }

    proof fn lemma_strict_order(a: isize, b: isize, c: isize) {
    }

    fn precedes(&self, other: &isize) -> (r: bool) {
        *self < *other
    }

    fn min(self, other: isize) -> (r: isize) {
        Ord::min(self, other)
    }

    fn max(self, other: isize) -> (r: isize) {
        Ord::max(self, other)
    }
}

impl PartialPreOrd for u8 {
    open spec fn lt_spec(self, other: u8) -> bool {
        self < other
    }

    proof fn lemma_strict_order(a: u8, b: u8, c: u8) {
    }

    fn precedes(&self, other: &u8) -> (r: bool) {
        *self < *other
    }

    fn min(self, other: u8) -> (r: u8) {
        Ord::min(self, other)
    }

    fn max(self, other: u8) -> (r: u8) {
        Ord::max(self, other)
    }
}

impl PartialPreOrd for u16 {
    open spec fn lt_spec(self, other: u16) -> bool {
        self < other
    }

    proof fn lemma_strict_order(a: u16, b: u16, c: u16) {
    }

    fn precedes(&self, other: &u16) -> (r: bool) {
        *self < *other
    }

    fn min(self, other: u16) -> (r: u16) {
        Ord::min(self, other)
    }

    fn max(self, other: u16) -> (r: u16) {
        Ord::max(self, other)
    }
}

impl PartialPreOrd for u32 {
    open spec fn lt_spec(self, other: u32) -> bool {
        self < other
    }

    proof fn lemma_strict_order(a: u32, b: u32, c: u32) {
    }

    fn precedes(&self, other: &u32) -> (r: bool) {
        *self < *other
    }

    fn min(self, other: u32) -> (r: u32) {
        Ord::min(self, other)
    }

    fn max(self, other: u32) -> (r: u32) {
        Ord::max(self, other)
    }
}

impl PartialPreOrd for u64 {
    open spec fn lt_spec(self, other: u64) -> bool {
        self < other
    }

    proof fn lemma_strict_order(a: u64, b: u64, c: u64) {
    }

    fn precedes(&self, other: &u64) -> (r: bool) {
        *self < *other
    }

    fn min(self, other: u64) -> (r: u64) {
        Ord::min(self, other)
    }

    fn max(self, other: u64) -> (r: u64) {
        Ord::max(self, other)
    }
}

impl PartialPreOrd for u128 {
    open spec fn lt_spec(self, other: u128) -> bool {
        self < other
    }

    proof fn lemma_strict_order(a: u128, b: u128, c: u128) {
    }

    fn precedes(&self, other: &u128) -> (r: bool) {
        *self < *other
    }

    fn min(self, other: u128) -> (r: u128) {
        Ord::min(self, other)
    }

    fn max(self, other: u128) -> (r: u128) {
        Ord::max(self, other)
    }
}

impl PartialPreOrd for usize {
    open spec fn lt_spec(self, other: usize) -> bool {
        self < other
    }

    proof fn lemma_strict_order(a: usize, b: usize, c: usize) {
    }

    fn precedes(&self, other: &usize) -> (r: bool) {
        *self < *other
    }

    fn min(self, other: usize) -> (r: usize) {
        Ord::min(self, other)
    }

    fn max(self, other: usize) -> (r: usize) {
        Ord::max(self, other)
    }
}

} // verus!
