//! The convex hull of a set of points, computed by the `chull` crate.

use vstd::prelude::*;
use crate::vector::all_convertible;

verus! {

/// The error that `chull` reports when it cannot build a convex hull.
#[verifier::external_type_specification]
#[verifier::external_body]
pub struct ExHullErrorKind(chull::ErrorKind);

/// The kinds of failure that chull reports, with the message of a round-off error.
#[derive(Debug)]
pub enum HullErrorKind {
    Empty,
    LessThanTwoDim,
    Degenerated,
    WrongDimension,
    RoundOffError(String),
}

/// The kind of failure that `e` is, with its message for a round-off error.
pub uninterp spec fn hull_error_view(e: chull::ErrorKind) -> HullErrorKind;

/// Tells chull's error variants apart, one arm each, copying the message of a round-off
/// error.
#[verifier::external_body]
pub(crate) fn hull_error_kind(e: &chull::ErrorKind) -> (k: HullErrorKind)
    ensures
        k == hull_error_view(*e),
{
    match e {
        chull::ErrorKind::Empty => HullErrorKind::Empty,
        chull::ErrorKind::LessThanTwoDim => HullErrorKind::LessThanTwoDim,
        chull::ErrorKind::Degenerated => HullErrorKind::Degenerated,
        chull::ErrorKind::WrongDimension => HullErrorKind::WrongDimension,
        chull::ErrorKind::RoundOffError(m) => HullErrorKind::RoundOffError(m.clone()),
    }
}

/// The text that chull's `Display` gives for an error of kind `k`: a fixed text for each
/// kind, and for a round-off error a fixed text followed by its message.
pub open spec fn hull_error_text(k: HullErrorKind) -> Seq<char> {
    match k {
        HullErrorKind::Empty => "empty"@,
        HullErrorKind::LessThanTwoDim => "less than two dimention"@,
        HullErrorKind::Degenerated => "degenerated"@,
        HullErrorKind::WrongDimension => "wrong dimension"@,
        HullErrorKind::RoundOffError(m) => "erroneous results by roundoff error: "@ + m@,
    }
}

/// The text of a chull error, as chull's `Display` writes it.
pub fn hull_error_message(e: &chull::ErrorKind) -> (s: String)
    ensures
        s@ == hull_error_text(hull_error_view(*e)),
{
    match hull_error_kind(e) {
        HullErrorKind::Empty => String::from_str("empty"),
        HullErrorKind::LessThanTwoDim => String::from_str("less than two dimention"),
        HullErrorKind::Degenerated => String::from_str("degenerated"),
        HullErrorKind::WrongDimension => String::from_str("wrong dimension"),
        HullErrorKind::RoundOffError(m) => {
            let mut s = String::from_str("erroneous results by roundoff error: ");
            s.append(m.as_str());
            s
        },
    }
}

/// The hull's vertices and its triangles, three vertex indices per triangle.
pub type HullParts = (Vec<glam::DVec3>, Vec<usize>);

/// What holds of every hull that `chull` hands back: the indices come in threes, each
/// names one of the vertices, there are at least four vertices (a 3D hull is never
/// flatter than a tetrahedron) and no more than the points it was built from.
pub open spec fn hull_shape(num_points: nat, vertices: Seq<glam::DVec3>, indices: Seq<usize>) -> bool {
    &&& indices.len() % 3 == 0
    &&& forall|k: int| 0 <= k < indices.len() ==> (#[trigger] indices[k] as int) < vertices.len()
    &&& 4 <= vertices.len() <= num_points
}

/// chull's rounding of a point: each coordinate divided by `f64::EPSILON`, cut towards zero
/// to an integer, and multiplied back by `f64::EPSILON`. It depends on the point alone.
pub uninterp spec fn hull_rounded(p: glam::DVec3) -> glam::DVec3;

/// Whether chull, given `points` and at most `max_iter` steps, may answer with `outcome`:
/// the corners of the hull and three corner indices per facet, or an error. Which of its
/// possible answers comes can depend on the order in which a hash set is walked, so what
/// is named here is the set of answers that these arguments allow.
pub uninterp spec fn hull_outcome(
    points: Seq<glam::DVec3>,
    max_iter: Option<usize>,
    outcome: Result<(Seq<glam::DVec3>, Seq<usize>), chull::ErrorKind>,
) -> bool;

/// `v` is chull's rounding of one of the points.
pub open spec fn rounded_from(points: Seq<glam::DVec3>, v: glam::DVec3) -> bool {
    exists|i: int| 0 <= i < points.len() && v == #[trigger] hull_rounded(points[i])
}

/// Every corner is chull's rounding of one of the points.
pub open spec fn corners_from(points: Seq<glam::DVec3>, vertices: Seq<glam::DVec3>) -> bool {
    forall|k: int| 0 <= k < vertices.len() ==> #[trigger] rounded_from(points, vertices[k])
}

/// A hull that chull may hand back for `points` with at most `max_iter` steps: one of its
/// allowed answers, of the shape that every hull has, with corners taken from the points.
pub open spec fn hull_of(
    points: Seq<glam::DVec3>,
    max_iter: Option<usize>,
    vertices: Seq<glam::DVec3>,
    indices: Seq<usize>,
) -> bool {
    &&& hull_outcome(points, max_iter, Ok((vertices, indices)))
    &&& hull_shape(points.len(), vertices, indices)
    &&& corners_from(points, vertices)
}

/// A hull result as seen from outside: the corners and indices by their views.
pub open spec fn hull_result_view(r: Result<HullParts, chull::ErrorKind>) -> Result<
    (Seq<glam::DVec3>, Seq<usize>),
    chull::ErrorKind,
> {
    match r {
        Ok((v, i)) => Ok((v@, i@)),
        Err(e) => Err(e),
    }
}

/// `chull::ConvexHullWrapper::try_new` on the points followed by `vertices_indices`.
///
/// chull divides each coordinate by `f64::EPSILON` and converts it to a big integer,
/// panicking where the quotient is not finite; `requires` leaves those points out. It
/// fails with `Empty` on no points and with `Degenerated` on one to three points (as many as
/// the three dimensions or fewer). Its answer is one of those
/// that the points and `max_iter` allow (`hull_outcome`). On success the vertices are
/// chull's points left after dropping those on no facet, each the rounding of an input
/// point (`hull_rounded`), and the indices list the corners of each triangular facet.
/// Which corners a facet lists first can depend on the order in which a hash set is
/// walked, so nothing more is said of the indices.
#[verifier::external_body]
pub(crate) fn convex_hull(points: &[glam::DVec3], max_iter: Option<usize>) -> (r: Result<HullParts, chull::ErrorKind>)
    requires
        all_convertible(points@),
    ensures
        points@.len() == 0 ==> r is Err && hull_error_view(r->Err_0) == HullErrorKind::Empty,
        1 <= points@.len() <= 3 ==> r is Err && hull_error_view(r->Err_0) == HullErrorKind::Degenerated,
        hull_outcome(points@, max_iter, hull_result_view(r)),
        r matches Ok((vertices, indices)) ==> hull_shape(points@.len(), vertices@, indices@),
        r is Ok ==> forall|k: int|
            #![trigger r->Ok_0.0@[k]]
            0 <= k < r->Ok_0.0@.len() ==> exists|i: int|
                0 <= i < points@.len() && r->Ok_0.0@[k] == #[trigger] hull_rounded(points@[i]),
{
    let coords: Vec<_> = points.iter().map(|p| p.to_array().to_vec()).collect();
    chull::ConvexHullWrapper::try_new(&coords, max_iter).map(|hull| {
        let (vertices, indices) = hull.vertices_indices();
        (vertices.iter().map(|c| glam::DVec3::from_slice(c)).collect(), indices)
    })
}

} // verus!
