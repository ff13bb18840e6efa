//! Curves made of brushes: the checks on their parameters, their errors, and the joining
//! of cross-sections into brushes.
//!
//! Where a curve's points lie is computed with floating-point trigonometry, which stays
//! outside this library; the points reach it as cross-sections along the curve.

use vstd::prelude::*;
use glam::DVec3;
use crate::brush::{Brush, BrushView, SideGeom, built_from_hull};
use crate::curve::bank::BankError;
use crate::curve::curve_classic::CurveClassicError;
use crate::curve::curve_slope::CurveSlopeError;
use crate::curve::extrude::ExtrudeError;
use crate::curve::extrude::profile::{ProfileError, profile_error_text};
use crate::curve::rayto::RaytoError;
use crate::curve::serpentine::SerpentineError;
use crate::hull::{hull_error_message, hull_error_text, hull_error_view, hull_of, hull_outcome};
use crate::text::decimal;
use crate::vector::all_convertible;


pub mod bank;
pub mod catenary;
pub mod curve_classic;
pub mod curve_slope;
pub mod extrude;
pub mod rayto;
pub mod serpentine;

verus! {

/// The most segments a curve may have.
pub const MAX_SEGMENTS: u32 = 4096;

/// The error message for too few segments.
pub open spec fn not_enough_segments_text(n: u32) -> Seq<char> {
    "n = "@ + decimal(n as nat) + ". Number of segments must be at least 1."@
}

/// The error message for too many segments.
pub open spec fn too_many_segments_text(n: u32) -> Seq<char> {
    "n = "@ + decimal(n as nat) + ". Number of segments must be no greater than 4096."@
}

/// Why a curve cannot be made.
#[derive(Debug)]
pub enum CurveError {
    CurveClassicError(CurveClassicError),
    CurveSlopeError(CurveSlopeError),
    ConvexHullFail(chull::ErrorKind),
    RaytoError(RaytoError),
    BankError(BankError),
    SerpentineError(SerpentineError),
    ExtrudeError(ExtrudeError),
    ProfileError(ProfileError),
}

impl CurveError {
    /// The message of this error: that of the error it holds, and for a failed convex hull
    /// chull's message after "Failed to find convex hull: ".
    pub fn message(&self) -> (s: String)
        ensures
            *self matches CurveError::ConvexHullFail(e) ==> s@ == "Failed to find convex hull: "@
                + hull_error_text(hull_error_view(e)),
            *self matches CurveError::CurveClassicError(e) ==> s@ == match e {
                CurveClassicError::NotEnoughSegments { n } => not_enough_segments_text(n),
                CurveClassicError::TooManySegments { n } => too_many_segments_text(n),
            },
            *self matches CurveError::CurveSlopeError(e) ==> s@ == match e {
                CurveSlopeError::NotEnoughSegments { n } => not_enough_segments_text(n),
                CurveSlopeError::TooManySegments { n } => too_many_segments_text(n),
            },
            *self matches CurveError::RaytoError(e) ==> s@ == match e {
                RaytoError::NotEnoughSegments { n } => not_enough_segments_text(n),
                RaytoError::TooManySegments { n } => too_many_segments_text(n),
            },
            *self matches CurveError::BankError(e) ==> s@ == match e {
                BankError::NotEnoughSegments { n } => not_enough_segments_text(n),
                BankError::TooManySegments { n } => too_many_segments_text(n),
            },
            *self matches CurveError::ExtrudeError(e) ==> s@ == match e {
                ExtrudeError::NotEnoughSegments { n } => not_enough_segments_text(n),
                ExtrudeError::TooManySegments { n } => too_many_segments_text(n),
            },
            *self matches CurveError::SerpentineError(e) ==> s@
                == crate::curve::serpentine::serpentine_error_text(e),
            *self matches CurveError::ProfileError(e) ==> s@ == profile_error_text(e),
    {
        match self {
            CurveError::CurveClassicError(e) => e.message(),
            CurveError::CurveSlopeError(e) => e.message(),
            CurveError::ConvexHullFail(e) => {
                let mut s = String::from_str("Failed to find convex hull: ");
                let m = hull_error_message(e);
                s.append(m.as_str());
                s
            },
            CurveError::RaytoError(e) => e.message(),
            CurveError::BankError(e) => e.message(),
            CurveError::SerpentineError(e) => e.message(),
            CurveError::ExtrudeError(e) => e.message(),
            CurveError::ProfileError(e) => e.message(),
        }
    }
}

/// The most steps chull may take for one brush.
pub const MAX_HULL_ITER: usize = 10_000;

/// A brush that chull can have made from `points` with at most `MAX_HULL_ITER` steps: the
/// convex hull of the points, with sides deduplicated by `equivalent`.
pub open spec fn hull_brush<F: Fn(SideGeom, SideGeom) -> bool>(
    brush: BrushView,
    equivalent: F,
    points: Seq<DVec3>,
) -> bool {
    exists|hv: Seq<DVec3>, hi: Seq<usize>|
        hull_of(points, Some(MAX_HULL_ITER), hv, hi) && built_from_hull(brush, equivalent, hv, hi)
}

/// chull may build a hull of `points` with at most `MAX_HULL_ITER` steps.
pub open spec fn hull_succeeds(points: Seq<DVec3>) -> bool {
    exists|hv: Seq<DVec3>, hi: Seq<usize>| hull_of(points, Some(MAX_HULL_ITER), hv, hi)
}

/// `e` is chull's answer for the first of the point sets whose hull fails: chull may
/// answer `e` for that set, and may build a hull of every set before it.
pub open spec fn first_hull_failure(sets: Seq<Seq<DVec3>>, e: chull::ErrorKind) -> bool {
    exists|i: int|
        0 <= i < sets.len() && hull_outcome(#[trigger] sets[i], Some(MAX_HULL_ITER), Err(e))
            && forall|k: int| 0 <= k < i ==> hull_succeeds(#[trigger] sets[k])
}

/// The point sets held by the vectors.
pub open spec fn set_views(sets: Seq<Vec<DVec3>>) -> Seq<Seq<DVec3>> {
    sets.map_values(|v: Vec<DVec3>| v@)
}

/// Each point set has only finite points.
pub open spec fn all_sets_convertible(sets: Seq<Vec<DVec3>>) -> bool {
    forall|i: int| 0 <= i < sets.len() ==> all_convertible(#[trigger] sets[i]@)
}

/// The brushes as seen from outside.
pub open spec fn brush_views(bs: Seq<Brush>) -> Seq<BrushView> {
    bs.map_values(|b: Brush| b@)
}

/// One brush per point set, each the convex hull of its set (at most `MAX_HULL_ITER`
/// steps), in order. The first set whose hull fails decides the error; a set of three or
/// fewer points always fails.
pub fn brushes_from_point_sets<F: Fn(SideGeom, SideGeom) -> bool>(
    sets: &Vec<Vec<DVec3>>,
    equivalent: &F,
) -> (r: Result<Vec<Brush>, chull::ErrorKind>)
    requires
        all_sets_convertible(sets@),
        forall|a: SideGeom, b: SideGeom| equivalent.requires((a, b)),
    ensures
        sets@.len() == 0 ==> (r matches Ok(bs) && bs@.len() == 0),
        (exists|i: int| 0 <= i < sets@.len() && #[trigger] sets@[i]@.len() <= 3) ==> r is Err,
        r matches Ok(bs) ==> bs@.len() == sets@.len() && forall|i: int|
            0 <= i < bs@.len() ==> hull_brush((#[trigger] bs@[i])@, *equivalent, sets@[i]@),
        r matches Err(e) ==> first_hull_failure(set_views(sets@), e),
{
    let mut bs: Vec<Brush> = Vec::new();
    let mut i: usize = 0;
    while i < sets.len()
        invariant
            i <= sets@.len(),
            all_sets_convertible(sets@),
            forall|a: SideGeom, b: SideGeom| equivalent.requires((a, b)),
            bs@.len() == i,
            forall|k: int| 0 <= k < i ==> #[trigger] sets@[k]@.len() > 3,
            forall|k: int| 0 <= k < i ==> hull_brush((#[trigger] bs@[k])@, *equivalent, sets@[k]@),
        decreases sets@.len() - i,
    {
        match Brush::try_from_vertices(sets[i].as_slice(), Some(MAX_HULL_ITER), equivalent) {
            Ok(b) => {
                bs.push(b);
            },
            Err(e) => {
                proof {
                    let vs = set_views(sets@);
                    assert(vs[i as int] == sets@[i as int]@);
                    assert forall|k: int| 0 <= k < i implies hull_succeeds(#[trigger] vs[k]) by {
                        assert(vs[k] == sets@[k]@);
                        assert(hull_brush(bs@[k]@, *equivalent, sets@[k]@));
                    }
                }
                return Err(e);
            },
        }
        i = i + 1;
    }
    Ok(bs)
}

/// The points of `a` followed by those of `b`.
pub fn concat_points(a: &Vec<DVec3>, b: &Vec<DVec3>) -> (r: Vec<DVec3>)
    ensures
        r@ == a@ + b@,
{
    let mut r: Vec<DVec3> = Vec::new();
    let mut i: usize = 0;
    while i < a.len()
        invariant
            i <= a@.len(),
            r@ == a@.take(i as int),
        decreases a@.len() - i,
    {
        r.push(a[i]);
        assert(a@.take(i + 1) =~= a@.take(i as int).push(a@[i as int]));
        i = i + 1;
    }
    let mut j: usize = 0;
    assert(a@.take(i as int) =~= a@);
    while j < b.len()
        invariant
            j <= b@.len(),
            r@ == a@ + b@.take(j as int),
        decreases b@.len() - j,
    {
        r.push(b[j]);
        assert(b@.take(j + 1) =~= b@.take(j as int).push(b@[j as int]));
        assert(a@ + b@.take(j + 1) =~= (a@ + b@.take(j as int)).push(b@[j as int]));
        j = j + 1;
    }
    assert(b@.take(j as int) =~= b@);
    r
}

/// The points of two consecutive cross-sections, the first one's before the second one's.
pub open spec fn window(sections: Seq<Vec<DVec3>>, i: int) -> Seq<DVec3> {
    sections[i]@ + sections[i + 1]@
}

/// The point sets of all pairs of consecutive cross-sections.
pub open spec fn windows(sections: Seq<Vec<DVec3>>) -> Seq<Seq<DVec3>> {
    Seq::new(
        if sections.len() == 0 { 0 } else { (sections.len() - 1) as nat },
        |i: int| window(sections, i),
    )
}

/// The point sets that joining hulls are consecutive pairs: there is one fewer than there
/// are cross-sections (none for an empty list), and the `i`-th holds the points of
/// cross-section `i` followed by those of cross-section `i + 1`, so each brush spans just
/// one segment of the curve.
pub proof fn lemma_windows_consecutive(sections: Seq<Vec<DVec3>>)
    ensures
        sections.len() == 0 ==> windows(sections).len() == 0,
        sections.len() > 0 ==> windows(sections).len() == sections.len() - 1,
        forall|i: int|
            0 <= i < sections.len() - 1 ==> #[trigger] windows(sections)[i] == sections[i]@
                + sections[i + 1]@,
{
}

/// Each pair of consecutive cross-sections made into one brush, the convex hull of the
/// points of both, in order along the curve: `k` sections give `k - 1` brushes. The first
/// pair whose hull fails decides the error.
pub fn join_sections<F: Fn(SideGeom, SideGeom) -> bool>(
    sections: &Vec<Vec<DVec3>>,
    equivalent: &F,
) -> (r: Result<Vec<Brush>, chull::ErrorKind>)
    requires
        all_sets_convertible(sections@),
        forall|a: SideGeom, b: SideGeom| equivalent.requires((a, b)),
    ensures
        sections@.len() < 2 ==> (r matches Ok(bs) && bs@.len() == 0),
        (exists|i: int| 0 <= i < windows(sections@).len() && #[trigger] windows(sections@)[i].len() <= 3)
            ==> r is Err,
        r matches Err(e) ==> first_hull_failure(windows(sections@), e),
        r matches Ok(bs) ==> bs@.len() == (if sections@.len() == 0 { 0 } else { sections@.len() - 1 })
            && forall|i: int|
            0 <= i < bs@.len() ==> hull_brush(
                (#[trigger] bs@[i])@,
                *equivalent,
                sections@[i]@ + sections@[i + 1]@,
            ),
        r matches Ok(bs) ==> bs@.len() == windows(sections@).len() && forall|i: int|
            0 <= i < bs@.len() ==> hull_brush((#[trigger] bs@[i])@, *equivalent, windows(sections@)[i]),
{
    let ghost ws = windows(sections@);
    let mut sets: Vec<Vec<DVec3>> = Vec::new();
    let mut i: usize = 0;
    let n = sections.len();
    while i + 1 < n
        invariant
            n == sections@.len(),
            all_sets_convertible(sections@),
            ws == windows(sections@),
            i <= ws.len(),
            sets@.len() == i,
            forall|k: int| 0 <= k < i ==> (#[trigger] sets@[k])@ == ws[k],
        decreases n - i,
    {
        let set = concat_points(&sections[i], &sections[i + 1]);
        sets.push(set);
        i = i + 1;
    }
    assert(sets@.len() == ws.len());
    assert forall|k: int| 0 <= k < sets@.len() implies all_convertible(#[trigger] sets@[k]@) by {
        assert(sets@[k]@ == window(sections@, k));
        assert(all_convertible(sections@[k]@));
        assert(all_convertible(sections@[k + 1]@));
    }
    proof {
        if exists|i: int| 0 <= i < ws.len() && #[trigger] ws[i].len() <= 3 {
            let i = choose|i: int| 0 <= i < ws.len() && #[trigger] ws[i].len() <= 3;
            assert(sets@[i]@.len() <= 3);
        }
        assert(set_views(sets@) =~= ws);
    }
    let r = brushes_from_point_sets(&sets, equivalent);
    proof {
        lemma_windows_consecutive(sections@);
    }
    r
}

} // verus!
