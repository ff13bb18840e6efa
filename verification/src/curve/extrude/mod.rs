//! Extrusion: a 2D profile swept along a path in 3D space.
//!
//! The profile's points, placed at each step along the path, arrive here as faces; this
//! module checks the number of steps and joins the faces of consecutive steps into brushes.

use vstd::prelude::*;
use glam::DVec3;
use crate::brush::{Brush, SideGeom};
use crate::curve::{
    MAX_SEGMENTS, all_sets_convertible, brushes_from_point_sets, first_hull_failure, hull_brush,
    not_enough_segments_text, set_views, too_many_segments_text,
};
use crate::text::with_number;
use crate::vector::all_convertible;

pub mod path;
pub mod profile;

verus! {

/// The plane in which a profile lies when it does not turn with the path.
#[derive(Debug, Clone, Copy, PartialEq, Eq, PartialOrd, Ord)]
pub enum ProfilePlane {
    XZ,
    YZ,
    XY,
}

/// How the profile is turned as it moves along the path.
#[derive(Debug, Clone, Copy, PartialEq, Eq, PartialOrd, Ord)]
pub enum ProfileOrientation {
    Constant(ProfilePlane),
    FollowPath,
}

impl Default for ProfileOrientation {
    /// The profile follows the path.
    fn default() -> (o: Self)
        ensures
            o == ProfileOrientation::FollowPath,
    {
        ProfileOrientation::FollowPath
    }
}

/// The name of an orientation as it is shown to users.
pub open spec fn orientation_label(o: ProfileOrientation) -> Seq<char> {
    match o {
        ProfileOrientation::Constant(ProfilePlane::XZ) => "Constant (XZ)"@,
        ProfileOrientation::Constant(ProfilePlane::YZ) => "Constant (YZ)"@,
        ProfileOrientation::Constant(ProfilePlane::XY) => "Constant (XY)"@,
        ProfileOrientation::FollowPath => "Follow Path"@,
    }
}

impl ProfileOrientation {
    /// The name of this orientation as it is shown to users.
    pub fn to_string(&self) -> (s: String)
        ensures
            s@ == orientation_label(*self),
    {
        match self {
            ProfileOrientation::Constant(ProfilePlane::XZ) => String::from_str("Constant (XZ)"),
            ProfileOrientation::Constant(ProfilePlane::YZ) => String::from_str("Constant (YZ)"),
            ProfileOrientation::Constant(ProfilePlane::XY) => String::from_str("Constant (XY)"),
            ProfileOrientation::FollowPath => String::from_str("Follow Path"),
        }
    }
}

/// Why an extrusion cannot be made.
#[derive(Debug, Clone, Copy, PartialEq, Eq)]
pub enum ExtrudeError {
    NotEnoughSegments { n: u32 },
    TooManySegments { n: u32 },
}

impl ExtrudeError {
    /// The message of this error.
    pub fn message(&self) -> (s: String)
        ensures
            s@ == match *self {
                ExtrudeError::NotEnoughSegments { n } => not_enough_segments_text(n),
                ExtrudeError::TooManySegments { n } => too_many_segments_text(n),
            },
    {
        match self {
            ExtrudeError::NotEnoughSegments { n } => with_number(
                "n = ",
                *n as u64,
                ". Number of segments must be at least 1.",
            ),
            ExtrudeError::TooManySegments { n } => with_number(
                "n = ",
                *n as u64,
                ". Number of segments must be no greater than 4096.",
            ),
        }
    }
}

/// Checks the number of steps of an extrusion of one profile: at least 1 and at most 4096.
pub fn check_segments(n: u32) -> (r: Result<(), ExtrudeError>)
    ensures
        r == if n < 1 {
            Err(ExtrudeError::NotEnoughSegments { n })
        } else if n > 4096 {
            Err(ExtrudeError::TooManySegments { n })
        } else {
            Ok(())
        },
{
    if n < 1 {
        return Err(ExtrudeError::NotEnoughSegments { n });
    }
    if n > MAX_SEGMENTS {
        return Err(ExtrudeError::TooManySegments { n });
    }
    Ok(())
}

/// Checks the number of brushes of an extrusion of a compound profile of `profile_count`
/// polygons along `n` steps: their product must be at least 1 and at most 4096. The error
/// reports the product cut to 32 bits; the product is returned when it passes.
pub fn check_compound_segments(profile_count: usize, n: u32) -> (r: Result<usize, ExtrudeError>)
    requires
        profile_count * n <= usize::MAX,
    ensures
        r == if profile_count * n < 1 {
            Err(ExtrudeError::NotEnoughSegments { n: 0 })
        } else if profile_count * n > 4096 {
            Err(ExtrudeError::TooManySegments { n: ((profile_count * n) as usize) as u32 })
        } else {
            Ok((profile_count * n) as usize)
        },
{
    let n_compound = profile_count * (n as usize);
    if n_compound < 1 {
        return Err(ExtrudeError::NotEnoughSegments { n: n_compound as u32 });
    }
    if n_compound > MAX_SEGMENTS as usize {
        return Err(ExtrudeError::TooManySegments { n: n_compound as u32 });
    }
    Ok(n_compound)
}

/// The point sets of two consecutive steps of a compound profile: the `k`-th polygon of
/// the first step with the `k`-th of the second, for as many polygons as both have.
pub open spec fn paired_faces(a: Seq<Vec<DVec3>>, b: Seq<Vec<DVec3>>) -> Seq<Seq<DVec3>> {
    Seq::new(
        if a.len() <= b.len() { a.len() } else { b.len() },
        |k: int| a[k]@ + b[k]@,
    )
}

/// The point sets of all consecutive steps of a compound profile, step after step.
pub open spec fn compound_sets(steps: Seq<Vec<Vec<DVec3>>>) -> Seq<Seq<DVec3>>
    decreases steps.len(),
{
    if steps.len() < 2 {
        seq![]
    } else {
        compound_sets(steps.drop_last()) + paired_faces(
            steps[steps.len() - 2]@,
            steps[steps.len() - 1]@,
        )
    }
}

/// Every polygon of every step has only finite points.
pub open spec fn steps_convertible(steps: Seq<Vec<Vec<DVec3>>>) -> bool {
    forall|i: int, k: int|
        0 <= i < steps.len() && 0 <= k < steps[i]@.len() ==> all_convertible(#[trigger] steps[i]@[k]@)
}

/// The brushes of an extrusion of a compound profile: for each pair of consecutive steps
/// along the path, one brush per polygon, the convex hull of that polygon at both steps.
/// The first hull that fails, in that order, decides the error.
pub fn join_compound_steps<F: Fn(SideGeom, SideGeom) -> bool>(
    steps: &Vec<Vec<Vec<DVec3>>>,
    equivalent: &F,
) -> (r: Result<Vec<Brush>, chull::ErrorKind>)
    requires
        steps_convertible(steps@),
        forall|a: SideGeom, b: SideGeom| equivalent.requires((a, b)),
    ensures
        compound_sets(steps@).len() == 0 ==> (r matches Ok(bs) && bs@.len() == 0),
        (exists|i: int| 0 <= i < compound_sets(steps@).len() && #[trigger] compound_sets(steps@)[i].len()
            <= 3) ==> r is Err,
        r matches Err(e) ==> first_hull_failure(compound_sets(steps@), e),
        r matches Ok(bs) ==> bs@.len() == compound_sets(steps@).len() && forall|i: int|
            0 <= i < bs@.len() ==> hull_brush((#[trigger] bs@[i])@, *equivalent, compound_sets(steps@)[i]),
{
    let mut sets: Vec<Vec<DVec3>> = Vec::new();
    let n = steps.len();
    if n == 0 {
        assert(compound_sets(steps@) =~= Seq::<Seq<DVec3>>::empty());
        assert(set_views(sets@) =~= compound_sets(steps@));
        return brushes_from_point_sets(&sets, equivalent);
    }
    let mut i: usize = 1;
    assert(compound_sets(steps@.take(1)) =~= Seq::<Seq<DVec3>>::empty());
    while i < n
        invariant
            n == steps@.len(),
            1 <= i <= n,
            steps_convertible(steps@),
            views_eq(sets@, compound_sets(steps@.take(i as int))),
            all_sets_convertible(sets@),
        decreases n - i,
    {
        let a = &steps[i - 1];
        let b = &steps[i];
        let m = if a.len() <= b.len() { a.len() } else { b.len() };
        let ghost before = sets@;
        let mut k: usize = 0;
        while k < m
            invariant
                m == if a@.len() <= b@.len() { a@.len() } else { b@.len() },
                k <= m,
                1 <= i < n,
                n == steps@.len(),
                a == steps@[i - 1],
                b == steps@[i as int],
                steps_convertible(steps@),
                sets@.len() == before.len() + k,
                forall|j: int| 0 <= j < before.len() ==> #[trigger] sets@[j] == before[j],
                forall|j: int| 0 <= j < k ==> (#[trigger] sets@[before.len() + j])@ == a@[j]@ + b@[j]@,
                all_sets_convertible(sets@),
            decreases m - k,
        {
            let set = crate::curve::concat_points(&a[k], &b[k]);
            proof {
                assert(all_convertible(a@[k as int]@));
                assert(all_convertible(b@[k as int]@));
            }
            sets.push(set);
            k = k + 1;
        }
        proof {
            let t = steps@.take(i + 1);
            assert(t.drop_last() =~= steps@.take(i as int));
            assert(t[t.len() - 2] == a);
            assert(t[t.len() - 1] == b);
            let p = paired_faces(a@, b@);
            let c = compound_sets(steps@.take(i as int));
            assert(compound_sets(t) == c + p);
            assert(p.len() == m);
            assert forall|j: int| 0 <= j < sets@.len() implies (#[trigger] sets@[j])@ == (c + p)[j] by {
                if j >= before.len() {
                    assert(sets@[before.len() + (j - before.len())]@ == a@[j - before.len()]@ + b@[j - before.len()]@);
                }
            }
        }
        i = i + 1;
    }
    assert(steps@.take(n as int) =~= steps@);
    proof {
        let cs = compound_sets(steps@);
        if exists|i: int| 0 <= i < cs.len() && #[trigger] cs[i].len() <= 3 {
            let i = choose|i: int| 0 <= i < cs.len() && #[trigger] cs[i].len() <= 3;
            assert(sets@[i]@.len() <= 3);
        }
        assert(set_views(sets@) =~= cs);
    }
    brushes_from_point_sets(&sets, equivalent)
}

/// An extrusion with `n` steps between `n + 1` placements of a compound profile of
/// `count` polygons each has `count * n` point sets, one brush each: the number that
/// `check_compound_segments` checks.
pub proof fn lemma_compound_count(steps: Seq<Vec<Vec<DVec3>>>, count: nat, n: nat)
    requires
        steps.len() == n + 1,
        forall|i: int| 0 <= i < steps.len() ==> (#[trigger] steps[i])@.len() == count,
    ensures
        compound_sets(steps).len() == count * n,
    decreases n,
{
    if n > 0 {
        let prefix = steps.drop_last();
        lemma_compound_count(prefix, count, (n - 1) as nat);
        assert(steps[steps.len() - 2] == prefix[prefix.len() - 1]);
        assert(paired_faces(steps[steps.len() - 2]@, steps[steps.len() - 1]@).len() == count);
        assert(count * n == count * (n - 1) + count) by (nonlinear_arith)
            requires n > 0;
    } else {
        assert(compound_sets(steps).len() == 0);
        assert(count * n == 0) by (nonlinear_arith)
            requires n == 0;
    }
}

/// Joining two placements of a compound profile pairs each polygon with itself: the `k`-th
/// point set is the `k`-th polygon at the first placement followed by the `k`-th polygon
/// at the second, for as many polygons as both placements have.
pub proof fn lemma_paired_faces_same_polygon(a: Seq<Vec<DVec3>>, b: Seq<Vec<DVec3>>)
    ensures
        paired_faces(a, b).len() == if a.len() <= b.len() { a.len() } else { b.len() },
        forall|k: int|
            0 <= k < a.len() && k < b.len() ==> #[trigger] paired_faces(a, b)[k] == a[k]@ + b[k]@,
{
}

/// In an extrusion of a compound profile of `count` polygons over `n` steps, the point
/// set of polygon `k` between placement `i` and placement `i + 1` stands at `i * count + k`
/// and holds that polygon at placement `i` followed by the same polygon at placement
/// `i + 1`.
pub proof fn lemma_compound_sets_index(steps: Seq<Vec<Vec<DVec3>>>, count: nat, n: nat)
    requires
        steps.len() == n + 1,
        forall|i: int| 0 <= i < steps.len() ==> (#[trigger] steps[i])@.len() == count,
    ensures
        compound_sets(steps).len() == count * n,
        forall|i: int, k: int|
            0 <= i < n && 0 <= k < count ==> #[trigger] compound_sets(steps)[i * count + k]
                == steps[i]@[k]@ + steps[i + 1]@[k]@,
    decreases n,
{
    lemma_compound_count(steps, count, n);
    if n > 0 {
        let prefix = steps.drop_last();
        lemma_compound_sets_index(prefix, count, (n - 1) as nat);
        let front = compound_sets(prefix);
        let last = paired_faces(steps[steps.len() - 2]@, steps[steps.len() - 1]@);
        assert(compound_sets(steps) == front + last);
        assert forall|i: int, k: int|
            0 <= i < n && 0 <= k < count implies #[trigger] compound_sets(steps)[i * count + k]
                == steps[i]@[k]@ + steps[i + 1]@[k]@ by {
            if i < n - 1 {
                assert(i * count + k < (n - 1) * count) by (nonlinear_arith)
                    requires
                        0 <= i < n - 1,
                        0 <= k < count,
                ;
                assert(prefix[i] == steps[i]);
                assert(prefix[i + 1] == steps[i + 1]);
                assert(compound_sets(steps)[i * count + k] == front[i * count + k]);
            } else {
                assert(i * count + k == (n - 1) * count + k) by (nonlinear_arith)
                    requires
                        i == n - 1,
                ;
                assert(front.len() == count * (n - 1));
                assert((n - 1) * count == count * (n - 1)) by (nonlinear_arith);
                assert(compound_sets(steps)[i * count + k] == last[k]);
                assert(steps[steps.len() - 2] == steps[i]);
            }
        }
    }
}

/// The point sets held by `sets` are `want`.
pub open spec fn views_eq(sets: Seq<Vec<DVec3>>, want: Seq<Seq<DVec3>>) -> bool {
    &&& sets.len() == want.len()
    &&& forall|j: int| 0 <= j < sets.len() ==> (#[trigger] sets[j])@ == want[j]
}

} // verus!
