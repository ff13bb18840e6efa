//! Curve Slope: a circular arc whose radii and the heights of its four edges change from
//! start to end, with an optional hill in the middle.

use vstd::prelude::*;
use glam::DVec3;
use crate::brush::{Brush, SideGeom};
use crate::curve::{
    all_sets_convertible, brushes_from_point_sets, first_hull_failure, hull_brush, set_views,
};
use crate::vector::hull_convertible;
use crate::curve::{MAX_SEGMENTS, not_enough_segments_text, too_many_segments_text};
use crate::text::with_number;

verus! {

/// Why a Curve Slope cannot be made.
#[derive(Debug, Clone, Copy, PartialEq, Eq)]
pub enum CurveSlopeError {
    NotEnoughSegments { n: u32 },
    TooManySegments { n: u32 },
}

impl CurveSlopeError {
    /// The message of this error.
    pub fn message(&self) -> (s: String)
        ensures
            s@ == match *self {
                CurveSlopeError::NotEnoughSegments { n } => not_enough_segments_text(n),
                CurveSlopeError::TooManySegments { n } => too_many_segments_text(n),
            },
    {
        match self {
            CurveSlopeError::NotEnoughSegments { n } => with_number(
                "n = ",
                *n as u64,
                ". Number of segments must be at least 1.",
            ),
            CurveSlopeError::TooManySegments { n } => with_number(
                "n = ",
                *n as u64,
                ". Number of segments must be no greater than 4096.",
            ),
        }
    }
}

/// Checks the number of segments of a Curve Slope: at least 1 and at most 4096.
pub fn check_segments(n: u32) -> (r: Result<(), CurveSlopeError>)
    ensures
        r == if n < 1 {
            Err(CurveSlopeError::NotEnoughSegments { n })
        } else if n > 4096 {
            Err(CurveSlopeError::TooManySegments { n })
        } else {
            Ok(())
        },
{
    if n < 1 {
        return Err(CurveSlopeError::NotEnoughSegments { n });
    }
    if n > MAX_SEGMENTS {
        return Err(CurveSlopeError::TooManySegments { n });
    }
    Ok(())
}

/// The two point sets that the cross-sections `a` and `b` (each inner top, inner bottom,
/// outer top, outer bottom) give: the first takes all of `a` and the outer edge of `b`, the
/// second the inner edge of `a` and all of `b`.
pub open spec fn slope_set(a: [DVec3; 4], b: [DVec3; 4], second: bool) -> Seq<DVec3> {
    if !second {
        seq![a[0], a[1], a[2], a[3], b[2], b[3]]
    } else {
        seq![a[0], a[1], b[0], b[1], b[2], b[3]]
    }
}

/// The point sets of a slope: two per pair of consecutive cross-sections, in order.
pub open spec fn slope_sets(sections: Seq<[DVec3; 4]>) -> Seq<Seq<DVec3>> {
    Seq::new(
        if sections.len() == 0 { 0 } else { (2 * (sections.len() - 1)) as nat },
        |k: int| slope_set(sections[k / 2], sections[k / 2 + 1], k % 2 == 1),
    )
}

/// Each pair of consecutive cross-sections `a`, `b` (inner top, inner bottom, outer top,
/// outer bottom) gives two point sets, in this order: all of `a` with the outer edge of
/// `b`, then the inner edge of `a` with all of `b`. Together they use every point of both
/// sections and share the diagonal from `a`'s inner edge to `b`'s outer edge.
pub proof fn lemma_slope_sets_split_each_pair(sections: Seq<[DVec3; 4]>)
    ensures
        slope_sets(sections).len() == if sections.len() == 0 { 0 } else { 2 * (sections.len() - 1) },
        forall|j: int|
            0 <= j < sections.len() - 1 ==> {
                let a = sections[j];
                let b = sections[j + 1];
                &&& #[trigger] slope_sets(sections)[2 * j] == seq![a[0], a[1], a[2], a[3], b[2], b[3]]
                &&& slope_sets(sections)[2 * j + 1] == seq![a[0], a[1], b[0], b[1], b[2], b[3]]
            },
{
    assert forall|j: int| 0 <= j < sections.len() - 1 implies {
        let a = sections[j];
        let b = sections[j + 1];
        &&& #[trigger] slope_sets(sections)[2 * j] == seq![a[0], a[1], a[2], a[3], b[2], b[3]]
        &&& slope_sets(sections)[2 * j + 1] == seq![a[0], a[1], b[0], b[1], b[2], b[3]]
    } by {
        assert((2 * j) / 2 == j);
        assert((2 * j + 1) / 2 == j);
        assert((2 * j) % 2 == 0);
        assert((2 * j + 1) % 2 == 1);
    }
}

/// Every point of every cross-section is finite.
pub open spec fn sections_convertible(sections: Seq<[DVec3; 4]>) -> bool {
    forall|i: int, j: int| 0 <= i < sections.len() && 0 <= j < 4 ==> hull_convertible(#[trigger] sections[i][j])
}

fn slope_set_exec(a: &[DVec3; 4], b: &[DVec3; 4], second: bool) -> (r: Vec<DVec3>)
    ensures
        r@ == slope_set(*a, *b, second),
{
    let mut r: Vec<DVec3> = Vec::new();
    r.push(a[0]);
    r.push(a[1]);
    if !second {
        r.push(a[2]);
        r.push(a[3]);
    } else {
        r.push(b[0]);
        r.push(b[1]);
    }
    r.push(b[2]);
    r.push(b[3]);
    assert(r@ =~= slope_set(*a, *b, second));
    r
}

/// The brushes of a curved slope from its cross-sections (inner top, inner bottom, outer
/// top, outer bottom each): two brushes for each pair of consecutive cross-sections, the
/// convex hulls of the point sets `slope_set` names, in order. The first hull that fails
/// decides the error.
pub fn slope_brushes<F: Fn(SideGeom, SideGeom) -> bool>(
    sections: &Vec<[DVec3; 4]>,
    equivalent: &F,
) -> (r: Result<Vec<Brush>, chull::ErrorKind>)
    requires
        sections_convertible(sections@),
        forall|a: SideGeom, b: SideGeom| equivalent.requires((a, b)),
    ensures
        sections@.len() < 2 ==> (r matches Ok(bs) && bs@.len() == 0),
        r matches Err(e) ==> first_hull_failure(slope_sets(sections@), e),
        r matches Ok(bs) ==> bs@.len() == slope_sets(sections@).len() && forall|k: int|
            0 <= k < bs@.len() ==> hull_brush((#[trigger] bs@[k])@, *equivalent, slope_sets(sections@)[k]),
{
    let ghost want = slope_sets(sections@);
    let mut sets: Vec<Vec<DVec3>> = Vec::new();
    let n = sections.len();
    let mut i: usize = 0;
    while i + 1 < n
        invariant
            n == sections@.len(),
            want == slope_sets(sections@),
            i + 1 <= n || n == 0,
            i <= n,
            sets@.len() == 2 * i,
            forall|k: int| 0 <= k < 2 * i ==> (#[trigger] sets@[k])@ == want[k],
        decreases n - i,
    {
        let first = slope_set_exec(&sections[i], &sections[i + 1], false);
        let second = slope_set_exec(&sections[i], &sections[i + 1], true);
        sets.push(first);
        sets.push(second);
        proof {
            assert((2 * i) / 2 == i as int);
            assert((2 * i + 1) / 2 == i as int);
            assert((2 * i + 1) % 2 == 1);
            assert((2 * i) % 2 == 0);
        }
        i = i + 1;
    }
    assert(sets@.len() == want.len());
    assert forall|k: int| 0 <= k < sets@.len() implies crate::vector::all_convertible(#[trigger] sets@[k]@) by {
        assert(sets@[k]@ == want[k]);
        let i = k / 2;
        assert forall|p: int| 0 <= p < want[k].len() implies hull_convertible(#[trigger] want[k][p]) by {
            assert(hull_convertible(sections@[i][0]));
            assert(hull_convertible(sections@[i][1]));
            assert(hull_convertible(sections@[i][2]));
            assert(hull_convertible(sections@[i][3]));
            assert(hull_convertible(sections@[i + 1][0]));
            assert(hull_convertible(sections@[i + 1][1]));
            assert(hull_convertible(sections@[i + 1][2]));
            assert(hull_convertible(sections@[i + 1][3]));
        }
    }
    assert(all_sets_convertible(sets@));
    assert(set_views(sets@) =~= want);
    brushes_from_point_sets(&sets, equivalent)
}

} // verus!
