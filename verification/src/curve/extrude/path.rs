//! Paths in 3D space along which profiles are swept, and the checks on their parameters.

use vstd::prelude::*;
use glam::DVec2;
use crate::text::{decimal, with_number};

verus! {

// ==================== Bezier ====================

/// Why a Bezier path cannot be made.
#[derive(Debug, Clone, Copy, PartialEq, Eq)]
pub enum BezierError {
    NotEnoughPoints(usize),
}

/// The message of a Bezier error.
pub open spec fn bezier_error_text(e: BezierError) -> Seq<char> {
    match e {
        BezierError::NotEnoughPoints(n) => "Bezier curve requires at least two points; "@
            + decimal(n as nat) + " provided"@,
    }
}

impl BezierError {
    /// The message of this error.
    pub fn message(&self) -> (s: String)
        ensures
            s@ == bezier_error_text(*self),
    {
        match self {
            BezierError::NotEnoughPoints(n) => with_number(
                "Bezier curve requires at least two points; ",
                *n as u64,
                " provided",
            ),
        }
    }
}

/// A Bezier curve in the XZ plane, given by its control points.
#[derive(Debug)]
pub struct Bezier {
    points: Vec<DVec2>,
}

impl View for Bezier {
    type V = Seq<DVec2>;

    closed spec fn view(&self) -> Seq<DVec2> {
        self.points@
    }
}

impl Clone for Bezier {
    fn clone(&self) -> (r: Bezier)
        ensures
            r@ == self@,
    {
        let mut points: Vec<DVec2> = Vec::new();
        let mut i: usize = 0;
        while i < self.points.len()
            invariant
                i <= self.points@.len(),
                points@ == self.points@.take(i as int),
            decreases self.points@.len() - i,
        {
            points.push(self.points[i]);
            assert(self.points@.take(i + 1) =~= self.points@.take(i as int).push(self.points@[i as int]));
            i = i + 1;
        }
        assert(self.points@.take(i as int) =~= self.points@);
        Bezier { points }
    }
}

impl Bezier {
    /// A Bezier curve through the given control points; it needs at least two.
    pub fn new(points: Vec<DVec2>) -> (r: Result<Bezier, BezierError>)
        ensures
            points@.len() < 2 ==> r == Err::<Bezier, BezierError>(BezierError::NotEnoughPoints(points@.len() as usize)),
            points@.len() >= 2 ==> (r matches Ok(b) && b@ == points@),
    {
        if points.len() < 2 {
            return Err(BezierError::NotEnoughPoints(points.len()));
        }
        Ok(Bezier { points })
    }

    /// The control points of the curve; there are at least two.
    pub fn points(&self) -> (r: &Vec<DVec2>)
        ensures
            r@ == self@,
    {
        &self.points
    }
}

// ==================== Serpentine ====================

/// Why a serpentine path cannot be made.
#[derive(Debug, Clone, Copy, PartialEq, Eq)]
pub enum SerpentineError {
    OrderedHeight,
    TooTall,
}

/// The message of a serpentine path error.
pub open spec fn serpentine_error_text(e: SerpentineError) -> Seq<char> {
    match e {
        SerpentineError::OrderedHeight => "Ending height must be greater than the starting height."@,
        SerpentineError::TooTall => "Serpentine curve height cannot be greater than its length."@,
    }
}

impl SerpentineError {
    /// The message of this error.
    pub fn message(&self) -> (s: String)
        ensures
            s@ == serpentine_error_text(*self),
    {
        match self {
            SerpentineError::OrderedHeight => String::from_str(
                "Ending height must be greater than the starting height.",
            ),
            SerpentineError::TooTall => String::from_str(
                "Serpentine curve height cannot be greater than its length.",
            ),
        }
    }
}

/// Checks the parameters of a serpentine path, in this order: the height is positive
/// (`height_not_positive` tells whether `z <= 0` holds) and no greater than the length
/// (`taller_than_long` tells whether `z > x` holds).
pub fn check_serpentine(height_not_positive: bool, taller_than_long: bool) -> (r: Result<(), SerpentineError>)
    ensures
        r == if height_not_positive {
            Err(SerpentineError::OrderedHeight)
        } else if taller_than_long {
            Err(SerpentineError::TooTall)
        } else {
            Ok(())
        },
{
    if height_not_positive {
        return Err(SerpentineError::OrderedHeight);
    }
    if taller_than_long {
        return Err(SerpentineError::TooTall);
    }
    Ok(())
}

} // verus!
