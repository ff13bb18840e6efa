//! Profiles: the 2D shapes swept along a path, and the checks on their parameters.

use vstd::prelude::*;
use crate::curve::MAX_SEGMENTS;
use crate::text::{decimal, with_number};

verus! {

/// The message for too few points.
pub open spec fn not_enough_points_text(n: u32) -> Seq<char> {
    "n = "@ + decimal(n as nat) + ". Number of points must be at least 1."@
}

/// The message for too many points.
pub open spec fn too_many_points_text(n: u32) -> Seq<char> {
    "n = "@ + decimal(n as nat) + ". Number of points must be no greater than 4096."@
}

fn not_enough_points_message(n: u32) -> (s: String)
    ensures
        s@ == not_enough_points_text(n),
{
    with_number("n = ", n as u64, ". Number of points must be at least 1.")
}

fn too_many_points_message(n: u32) -> (s: String)
    ensures
        s@ == too_many_points_text(n),
{
    with_number("n = ", n as u64, ". Number of points must be no greater than 4096.")
}

// ==================== Circle ====================

/// Why a circle profile cannot be made.
#[derive(Debug, Clone, Copy, PartialEq, Eq)]
pub enum CircleError {
    NotEnoughPoints { n: u32 },
    TooManyPoints { n: u32 },
}

impl CircleError {
    /// The message of this error.
    pub fn message(&self) -> (s: String)
        ensures
            s@ == match *self {
                CircleError::NotEnoughPoints { n } => not_enough_points_text(n),
                CircleError::TooManyPoints { n } => too_many_points_text(n),
            },
    {
        match self {
            CircleError::NotEnoughPoints { n } => not_enough_points_message(*n),
            CircleError::TooManyPoints { n } => too_many_points_message(*n),
        }
    }
}

/// Checks the number of points of a circle profile: at least 1 and at most 4096.
pub fn check_circle(n: u32) -> (r: Result<(), CircleError>)
    ensures
        r == if n < 1 {
            Err(CircleError::NotEnoughPoints { n })
        } else if n > 4096 {
            Err(CircleError::TooManyPoints { n })
        } else {
            Ok(())
        },
{
    if n < 1 {
        return Err(CircleError::NotEnoughPoints { n });
    }
    if n > MAX_SEGMENTS {
        return Err(CircleError::TooManyPoints { n });
    }
    Ok(())
}

// ==================== Circular sector ====================

/// Why a circular sector profile cannot be made.
#[derive(Debug, Clone, Copy, PartialEq, Eq)]
pub enum CircleSectorError {
    NotEnoughPoints { n: u32 },
    TooManyPoints { n: u32 },
    OrderedAngle,
    Limit180,
}

/// The message of a circular sector error.
pub open spec fn circle_sector_error_text(e: CircleSectorError) -> Seq<char> {
    match e {
        CircleSectorError::NotEnoughPoints { n } => not_enough_points_text(n),
        CircleSectorError::TooManyPoints { n } => too_many_points_text(n),
        CircleSectorError::OrderedAngle => "End angle must be greater than start angle."@,
        CircleSectorError::Limit180 => "The difference between the start and end angle must be no greater than 180 degrees."@,
    }
}

impl CircleSectorError {
    /// The message of this error.
    pub fn message(&self) -> (s: String)
        ensures
            s@ == circle_sector_error_text(*self),
    {
        match self {
            CircleSectorError::NotEnoughPoints { n } => not_enough_points_message(*n),
            CircleSectorError::TooManyPoints { n } => too_many_points_message(*n),
            CircleSectorError::OrderedAngle => String::from_str(
                "End angle must be greater than start angle.",
            ),
            CircleSectorError::Limit180 => String::from_str(
                "The difference between the start and end angle must be no greater than 180 degrees.",
            ),
        }
    }
}

/// Checks the parameters of a circular sector profile, in this order: at least 1 and at
/// most 4096 points, the start angle before the end angle (`start_not_before_end` tells
/// whether `start_angle >= end_angle` holds), and an opening of at most 180 degrees
/// (`wider_than_180` tells whether `end_angle - start_angle > 180` holds).
pub fn check_circle_sector(n: u32, start_not_before_end: bool, wider_than_180: bool) -> (r: Result<(), CircleSectorError>)
    ensures
        r == if n < 1 {
            Err(CircleSectorError::NotEnoughPoints { n })
        } else if n > 4096 {
            Err(CircleSectorError::TooManyPoints { n })
        } else if start_not_before_end {
            Err(CircleSectorError::OrderedAngle)
        } else if wider_than_180 {
            Err(CircleSectorError::Limit180)
        } else {
            Ok(())
        },
{
    if n < 1 {
        return Err(CircleSectorError::NotEnoughPoints { n });
    }
    if n > MAX_SEGMENTS {
        return Err(CircleSectorError::TooManyPoints { n });
    }
    if start_not_before_end {
        return Err(CircleSectorError::OrderedAngle);
    }
    if wider_than_180 {
        return Err(CircleSectorError::Limit180);
    }
    Ok(())
}

// ==================== Rectangle and parallelogram ====================

/// Which point of a shape is placed on the path: one of its corners, the middle of one of
/// its edges, or its centre.
#[derive(Debug, Clone, Copy, PartialEq, Eq, PartialOrd, Ord)]
pub enum Anchor9Point {
    TopLeft,
    TopCenter,
    TopRight,
    CenterLeft,
    Center,
    CenterRight,
    BottomLeft,
    BottomCenter,
    BottomRight,
}

/// The anchor of a rectangle profile.
pub type RectangleAnchor = Anchor9Point;

/// Which way a rectangle is moved so that its anchor lies at the origin, in half widths and
/// half heights: right (+1) when anchored on the left, left (-1) when anchored on the
/// right; up (+1) when anchored at the bottom, down (-1) when anchored at the top; not at
/// all when anchored in the middle.
pub open spec fn rectangle_shift(anchor: Anchor9Point) -> (int, int) {
    let h: int = match anchor {
        Anchor9Point::TopLeft | Anchor9Point::CenterLeft | Anchor9Point::BottomLeft => 1,
        Anchor9Point::TopCenter | Anchor9Point::Center | Anchor9Point::BottomCenter => 0,
        Anchor9Point::TopRight | Anchor9Point::CenterRight | Anchor9Point::BottomRight => -1,
    };
    let v: int = match anchor {
        Anchor9Point::TopLeft | Anchor9Point::TopCenter | Anchor9Point::TopRight => -1,
        Anchor9Point::CenterLeft | Anchor9Point::Center | Anchor9Point::CenterRight => 0,
        Anchor9Point::BottomLeft | Anchor9Point::BottomCenter | Anchor9Point::BottomRight => 1,
    };
    (h, v)
}

/// Where an anchor lies on a rectangle centred at the origin, in half widths to the right
/// and half heights up: the left edge at -1, the right edge at +1, the top at +1, the
/// bottom at -1, the middle at 0.
pub open spec fn anchor_position(anchor: Anchor9Point) -> (int, int) {
    let x: int = match anchor {
        Anchor9Point::TopLeft | Anchor9Point::CenterLeft | Anchor9Point::BottomLeft => -1,
        Anchor9Point::TopCenter | Anchor9Point::Center | Anchor9Point::BottomCenter => 0,
        Anchor9Point::TopRight | Anchor9Point::CenterRight | Anchor9Point::BottomRight => 1,
    };
    let y: int = match anchor {
        Anchor9Point::TopLeft | Anchor9Point::TopCenter | Anchor9Point::TopRight => 1,
        Anchor9Point::CenterLeft | Anchor9Point::Center | Anchor9Point::CenterRight => 0,
        Anchor9Point::BottomLeft | Anchor9Point::BottomCenter | Anchor9Point::BottomRight => -1,
    };
    (x, y)
}

/// Shifting a rectangle by `rectangle_shift` of its anchor brings the anchor to the
/// origin, for every anchor: the horizontal shift undoes the anchor's column and the
/// vertical shift its row.
pub proof fn lemma_shift_moves_anchor_to_origin(anchor: Anchor9Point)
    ensures
        anchor_position(anchor).0 + rectangle_shift(anchor).0 == 0,
        anchor_position(anchor).1 + rectangle_shift(anchor).1 == 0,
{
}

impl Anchor9Point {
    /// How many half widths and half heights a rectangle moves so that this anchor lies at
    /// the origin (see `rectangle_shift`).
    pub fn rectangle_shift(&self) -> (r: (i8, i8))
        ensures
            r.0 == rectangle_shift(*self).0,
            r.1 == rectangle_shift(*self).1,
    {
        let h: i8 = match self {
            Anchor9Point::TopLeft | Anchor9Point::CenterLeft | Anchor9Point::BottomLeft => 1,
            Anchor9Point::TopCenter | Anchor9Point::Center | Anchor9Point::BottomCenter => 0,
            Anchor9Point::TopRight | Anchor9Point::CenterRight | Anchor9Point::BottomRight => -1,
        };
        let v: i8 = match self {
            Anchor9Point::TopLeft | Anchor9Point::TopCenter | Anchor9Point::TopRight => -1,
            Anchor9Point::CenterLeft | Anchor9Point::Center | Anchor9Point::CenterRight => 0,
            Anchor9Point::BottomLeft | Anchor9Point::BottomCenter | Anchor9Point::BottomRight => 1,
        };
        (h, v)
    }
}

// ==================== Annulus ====================

/// Why an annulus profile cannot be made.
#[derive(Debug, Clone, Copy, PartialEq, Eq)]
pub enum AnnulusError {
    NotEnoughPoints { n: u32 },
    TooManyPoints { n: u32 },
}

impl AnnulusError {
    /// The message of this error.
    pub fn message(&self) -> (s: String)
        ensures
            s@ == match *self {
                AnnulusError::NotEnoughPoints { n } => not_enough_points_text(n),
                AnnulusError::TooManyPoints { n } => too_many_points_text(n),
            },
    {
        match self {
            AnnulusError::NotEnoughPoints { n } => not_enough_points_message(*n),
            AnnulusError::TooManyPoints { n } => too_many_points_message(*n),
        }
    }
}

/// Checks the number of segments of an annulus profile: at least 1 and at most 4096.
pub fn check_annulus(n: u32) -> (r: Result<(), AnnulusError>)
    ensures
        r == if n < 1 {
            Err(AnnulusError::NotEnoughPoints { n })
        } else if n > 4096 {
            Err(AnnulusError::TooManyPoints { n })
        } else {
            Ok(())
        },
{
    if n < 1 {
        return Err(AnnulusError::NotEnoughPoints { n });
    }
    if n > MAX_SEGMENTS {
        return Err(AnnulusError::TooManyPoints { n });
    }
    Ok(())
}

// ==================== Profile errors ====================

/// Why a profile cannot be made. Rectangles and parallelograms are always made, so no
/// variant stands for them.
#[derive(Debug, Clone, Copy, PartialEq, Eq)]
pub enum ProfileError {
    CircleError(CircleError),
    CircleSectorError(CircleSectorError),
    AnnulusError(AnnulusError),
}

/// The message of a profile error: that of the error it holds.
pub open spec fn profile_error_text(e: ProfileError) -> Seq<char> {
    match e {
        ProfileError::CircleError(c) => match c {
            CircleError::NotEnoughPoints { n } => not_enough_points_text(n),
            CircleError::TooManyPoints { n } => too_many_points_text(n),
        },
        ProfileError::CircleSectorError(c) => circle_sector_error_text(c),
        ProfileError::AnnulusError(a) => match a {
            AnnulusError::NotEnoughPoints { n } => not_enough_points_text(n),
            AnnulusError::TooManyPoints { n } => too_many_points_text(n),
        },
    }
}

impl ProfileError {
    /// The message of this error: that of the error it holds.
    pub fn message(&self) -> (s: String)
        ensures
            s@ == profile_error_text(*self),
    {
        match self {
            ProfileError::CircleError(e) => e.message(),
            ProfileError::CircleSectorError(e) => e.message(),
            ProfileError::AnnulusError(e) => e.message(),
        }
    }
}

} // verus!
