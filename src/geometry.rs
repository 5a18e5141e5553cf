use vstd::prelude::*;

verus! {

/// What a tuple stands for: a vector, a point or a normal. The kind changes
/// how a tuple is read, never how it is stored or computed with.
pub trait Geometry: Copy {
    /// The one value of the kind.
    spec fn spec_tag() -> Self;

    /// A kind has a single value.
    proof fn lemma_single(a: Self)
        ensures
            a == Self::spec_tag(),
    ;

    /// The one value of the kind.
    fn tag() -> (r: Self)
        ensures
            r == Self::spec_tag(),
    ;

    /// The name of the kind, as the tuple texts begin with it.
    spec fn spec_name() -> Seq<char>;

    /// The name of the kind.
    fn name() -> (r: &'static str)
        ensures
            r@ == Self::spec_name(),
    ;
}

/// A displacement.
#[derive(Clone, Copy, PartialEq, Eq, PartialOrd, Ord, Hash, Debug, Default)]
pub struct VectorKind;

/// A position.
#[derive(Clone, Copy, PartialEq, Eq, PartialOrd, Ord, Hash, Debug, Default)]
pub struct PointKind;

/// A surface normal.
#[derive(Clone, Copy, PartialEq, Eq, PartialOrd, Ord, Hash, Debug, Default)]
pub struct NormalKind;

impl Geometry for VectorKind {
    open spec fn spec_tag() -> Self {
        VectorKind
    }

    proof fn lemma_single(a: Self) {
    }

    fn tag() -> (r: Self) {
        VectorKind
    }

    open spec fn spec_name() -> Seq<char> {
        "Vector"@
    }

    fn name() -> (r: &'static str) {
        "Vector"
    }
}

impl Geometry for PointKind {
    open spec fn spec_tag() -> Self {
        PointKind
    }

    proof fn lemma_single(a: Self) {
    }

    fn tag() -> (r: Self) {
        PointKind
    }

    open spec fn spec_name() -> Seq<char> {
        "Point"@
    }

    fn name() -> (r: &'static str) {
        "Point"
    }
}

impl Geometry for NormalKind {
    open spec fn spec_tag() -> Self {
        NormalKind
    }

    proof fn lemma_single(a: Self) {
    }

    fn tag() -> (r: Self) {
        NormalKind
    }

    open spec fn spec_name() -> Seq<char> {
        "Normal"@
    }

    fn name() -> (r: &'static str) {
        "Normal"
    }
}

} // verus!
