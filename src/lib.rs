//! Fixed-arity numeric tuples (vectors, points and normals in two and three
//! dimensions) over a scalar type, with verified component-wise arithmetic,
//! reductions, permutation and conversions.

mod decimal;
mod geometry;
mod number_traits;
mod partial_pre_ord;
mod scalar_mul;
mod tuple2;
mod tuple3;

pub use decimal::{decimal, digit_text, signed_decimal};
pub use geometry::{Geometry, NormalKind, PointKind, VectorKind};
pub use number_traits::{
    abs_int, fits, lerp_fits, lerp_int, mul_add_fits, mul_add_int, Number, Signed,
};
pub use partial_pre_ord::{comparable, max_of, min_of, PartialPreOrd};
pub use scalar_mul::{lemma_scalar_mul_commutes_2, lemma_scalar_mul_commutes_3};
pub use tuple2::{
    lemma_arithmetic_identities_2, lemma_cast_round_trip_2, lemma_index_consistency_2,
    lemma_permute_component_2, lemma_permute_identity_2, Tuple2,
};
pub use tuple3::{
    lemma_arithmetic_identities_3, lemma_cast_round_trip_3, lemma_index_consistency_3,
    lemma_permute_component_3, lemma_permute_identity_3, Tuple3,
};

use vstd::prelude::*;

verus! {

/// A two-dimensional vector.
pub type Vector2<T> = Tuple2<VectorKind, T>;

/// A three-dimensional vector.
pub type Vector3<T> = Tuple3<VectorKind, T>;

/// A two-dimensional point.
pub type Point2<T> = Tuple2<PointKind, T>;

/// A three-dimensional point.
pub type Point3<T> = Tuple3<PointKind, T>;

/// A two-dimensional normal.
pub type Normal2<T> = Tuple2<NormalKind, T>;

/// A three-dimensional normal.
pub type Normal3<T> = Tuple3<NormalKind, T>;

/// A two-dimensional vector of 32-bit signed integers.
pub type Vector2i32 = Vector2<i32>;

/// A three-dimensional vector of 32-bit signed integers.
pub type Vector3i32 = Vector3<i32>;

} // verus!
