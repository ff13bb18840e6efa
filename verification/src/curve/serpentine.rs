//! Serpentine: two tangent circular arcs, one curving up and one curving over, like a belt
//! around two pulleys.

use vstd::prelude::*;
use glam::DVec3;
use crate::brush::{Brush, SideGeom};
use crate::curve::{
    MAX_HULL_ITER, all_sets_convertible, first_hull_failure, hull_brush, hull_succeeds,
    join_sections, windows,
};
use crate::hull::hull_outcome;
use crate::text::{decimal, with_number};

verus! {

/// Where the thickness of a serpentine lies relative to its arcs.
#[derive(Debug, Clone, Copy, PartialEq, Eq, PartialOrd, Ord)]
pub enum SerpentineOffsetMode {
    Top,
    Middle,
    Bottom,
}

impl Default for SerpentineOffsetMode {
    /// The thickness is centred on the arcs.
    fn default() -> (m: Self)
        ensures
            m == SerpentineOffsetMode::Middle,
    {
        SerpentineOffsetMode::Middle
    }
}

/// Why a serpentine cannot be made.
#[derive(Debug, Clone, Copy, PartialEq, Eq)]
pub enum SerpentineError {
    NotEnoughSegments { n_each: u32 },
    TooManySegments { n_each: u32 },
    OrderedHeight,
    TooTall,
}

/// The message of a serpentine error.
pub open spec fn serpentine_error_text(e: SerpentineError) -> Seq<char> {
    match e {
        SerpentineError::NotEnoughSegments { n_each } => "n_each = "@ + decimal(n_each as nat)
            + ". Number of segments in either side must be at least 1."@,
        SerpentineError::TooManySegments { n_each } => "n_each = "@ + decimal(n_each as nat)
            + ". Number of segments in either side must be no greater than 2048."@,
        SerpentineError::OrderedHeight => "Ending height must be greater than the starting height."@,
        SerpentineError::TooTall => "Serpentine curve height cannot be greater than its length."@,
    }
}

impl SerpentineError {
    /// The message of this error.
    pub fn message(&self) -> (s: String)
        ensures
            s@ == serpentine_error_text(*self),
    {
        match self {
            SerpentineError::NotEnoughSegments { n_each } => with_number(
                "n_each = ",
                *n_each as u64,
                ". Number of segments in either side must be at least 1.",
            ),
            SerpentineError::TooManySegments { n_each } => with_number(
                "n_each = ",
                *n_each as u64,
                ". Number of segments in either side must be no greater than 2048.",
            ),
            SerpentineError::OrderedHeight => String::from_str(
                "Ending height must be greater than the starting height.",
            ),
            SerpentineError::TooTall => String::from_str(
                "Serpentine curve height cannot be greater than its length.",
            ),
        }
    }
}

/// The most segments either arc of a serpentine may have.
pub const MAX_SEGMENTS_EACH: u32 = 2048;

/// Checks the parameters of a serpentine, in this order: each arc has at least 1 and at
/// most 2048 segments, the height is positive (`height_positive` tells whether `z > 0`
/// holds), and the height is no greater than the length (`taller_than_long` tells whether
/// `z > x` holds).
pub fn check(n_each: u32, height_positive: bool, taller_than_long: bool) -> (r: Result<(), SerpentineError>)
    ensures
        r == if n_each < 1 {
            Err(SerpentineError::NotEnoughSegments { n_each })
        } else if n_each > 2048 {
            Err(SerpentineError::TooManySegments { n_each })
        } else if !height_positive {
            Err(SerpentineError::OrderedHeight)
        } else if taller_than_long {
            Err(SerpentineError::TooTall)
        } else {
            Ok(())
        },
{
    if n_each < 1 {
        return Err(SerpentineError::NotEnoughSegments { n_each });
    }
    if n_each > MAX_SEGMENTS_EACH {
        return Err(SerpentineError::TooManySegments { n_each });
    }
    if !height_positive {
        return Err(SerpentineError::OrderedHeight);
    }
    if taller_than_long {
        return Err(SerpentineError::TooTall);
    }
    Ok(())
}

/// The number of segments of each arc when the whole serpentine is to have `n`: half of
/// `n`, rounded up, so that the total is `n` rounded up to the nearest even number.
pub fn segments_each(n: u32) -> (n_each: u32)
    ensures
        n_each == (n as int + 1) / 2,
        n <= 2 * n_each <= n + 1,
{
    n / 2 + n % 2
}

/// The brushes of a serpentine: those of the first arc's cross-sections joined pairwise,
/// then those of the second arc's. The first hull that fails, in that order, decides the
/// error.
pub fn join_arcs<F: Fn(SideGeom, SideGeom) -> bool>(
    arc0: &Vec<Vec<DVec3>>,
    arc1: &Vec<Vec<DVec3>>,
    equivalent: &F,
) -> (r: Result<Vec<Brush>, chull::ErrorKind>)
    requires
        all_sets_convertible(arc0@),
        all_sets_convertible(arc1@),
        forall|a: SideGeom, b: SideGeom| equivalent.requires((a, b)),
    ensures
        arc0@.len() < 2 && arc1@.len() < 2 ==> (r matches Ok(bs) && bs@.len() == 0),
        (exists|i: int| 0 <= i < (windows(arc0@) + windows(arc1@)).len() && #[trigger] (windows(arc0@)
            + windows(arc1@))[i].len() <= 3) ==> r is Err,
        r matches Err(e) ==> first_hull_failure(windows(arc0@) + windows(arc1@), e),
        r matches Ok(bs) ==> {
            let sets = windows(arc0@) + windows(arc1@);
            &&& bs@.len() == sets.len()
            &&& forall|i: int| 0 <= i < bs@.len() ==> hull_brush((#[trigger] bs@[i])@, *equivalent, sets[i])
        },
{
    let mut first = match join_sections(arc0, equivalent) {
        Ok(bs) => bs,
        Err(e) => {
            proof {
                let w0 = windows(arc0@);
                let ws = w0 + windows(arc1@);
                let i = choose|i: int|
                    0 <= i < w0.len() && hull_outcome(#[trigger] w0[i], Some(MAX_HULL_ITER), Err(e))
                        && forall|k: int| 0 <= k < i ==> hull_succeeds(#[trigger] w0[k]);
                assert(ws[i] == w0[i]);
                assert forall|k: int| 0 <= k < i implies hull_succeeds(#[trigger] ws[k]) by {
                    assert(ws[k] == w0[k]);
                }
            }
            return Err(e);
        },
    };
    let mut second = match join_sections(arc1, equivalent) {
        Ok(bs) => bs,
        Err(e) => {
            proof {
                let w0 = windows(arc0@);
                let w1 = windows(arc1@);
                let ws = w0 + w1;
                let i = choose|i: int|
                    0 <= i < w1.len() && hull_outcome(#[trigger] w1[i], Some(MAX_HULL_ITER), Err(e))
                        && forall|k: int| 0 <= k < i ==> hull_succeeds(#[trigger] w1[k]);
                assert(ws[w0.len() + i] == w1[i]);
                assert forall|k: int| 0 <= k < w0.len() + i implies hull_succeeds(#[trigger] ws[k]) by {
                    if k < w0.len() {
                        assert(ws[k] == w0[k]);
                        assert(hull_brush(first@[k]@, *equivalent, w0[k]));
                    } else {
                        assert(ws[k] == w1[k - w0.len()]);
                    }
                }
            }
            return Err(e);
        },
    };
    proof {
        let w0 = windows(arc0@);
        let w1 = windows(arc1@);
        if exists|i: int| 0 <= i < (w0 + w1).len() && #[trigger] (w0 + w1)[i].len() <= 3 {
            let i = choose|i: int| 0 <= i < (w0 + w1).len() && #[trigger] (w0 + w1)[i].len() <= 3;
            if i < w0.len() {
                assert(w0[i].len() <= 3);
            } else {
                assert(w1[i - w0.len()].len() <= 3);
            }
        }
    }
    let ghost f = first@;
    let ghost g = second@;
    first.append(&mut second);
    assert(first@ == f + g);
    Ok(first)
}

} // verus!
