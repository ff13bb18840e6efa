//! Points in 3D space, held as glam's `DVec3`.
//!
//! Their coordinates are floating-point numbers, which this library never inspects: a
//! point is carried through as an opaque value, and the few things that are read of it go
//! through the functions below.

use vstd::prelude::*;

verus! {

/// glam's double-precision 3D vector. Its coordinates are never inspected here.
#[verifier::external_type_specification]
#[verifier::external_body]
pub struct ExDVec3(glam::DVec3);

/// glam's double-precision 2D vector. Its coordinates are never inspected here.
#[verifier::external_type_specification]
#[verifier::external_body]
pub struct ExDVec2(glam::DVec2);

/// The text that `format!("{:.6} {:.6} {:.6}", v.x, v.y, v.z)` produces for `v`.
pub uninterp spec fn coords_text(v: glam::DVec3) -> Seq<char>;

/// Formats the three coordinates of `v` with six decimals each, separated by single
/// spaces, by std's `format!`. The text depends on `v` alone; what it holds is left to
/// the name `coords_text`.
#[verifier::external_body]
pub(crate) fn format_coords(v: &glam::DVec3) -> (s: String)
    ensures
        s@ == coords_text(*v),
{
    format!("{:.6} {:.6} {:.6}", v.x, v.y, v.z)
}

/// Whether chull can take `v`: chull divides each coordinate by `f64::EPSILON` and turns
/// the quotient into a big integer, which succeeds exactly when the quotient is finite. So
/// this fails for an infinite or NaN coordinate, and for one so large (above about 2^972)
/// that the division overflows.
pub uninterp spec fn hull_convertible(v: glam::DVec3) -> bool;

/// Whether the quotients that chull converts are finite: glam's `DVec3::is_finite` of `v`
/// times 2^52 (glam's `DVec3 * DVec3`). As `f64::EPSILON` is 2^-52, that product is exactly
/// the quotient chull computes, for every `v`.
#[verifier::external_body]
pub(crate) fn point_hull_convertible(v: &glam::DVec3) -> (r: bool)
    ensures
        r == hull_convertible(*v),
{
    (*v * glam::DVec3::splat(4503599627370496u64 as _)).is_finite()
}

/// chull can take every point of `points`.
pub open spec fn all_convertible(points: Seq<glam::DVec3>) -> bool {
    forall|i: int| 0 <= i < points.len() ==> hull_convertible(#[trigger] points[i])
}

/// Whether chull can take every point of `points`.
pub fn points_convertible(points: &[glam::DVec3]) -> (r: bool)
    ensures
        r == all_convertible(points@),
{
    let mut i: usize = 0;
    while i < points.len()
        invariant
            i <= points@.len(),
            forall|j: int| 0 <= j < i ==> hull_convertible(#[trigger] points@[j]),
        decreases points@.len() - i,
    {
        if !point_hull_convertible(&points[i]) {
            return false;
        }
        i = i + 1;
    }
    true
}

} // verus!
