//! Curve Classic: a circular arc of constant thickness whose inner and outer radii may change
//! from start to end.

use vstd::prelude::*;
use crate::curve::{MAX_SEGMENTS, not_enough_segments_text, too_many_segments_text};
use crate::text::with_number;

verus! {

/// Why a Curve Classic cannot be made.
#[derive(Debug, Clone, Copy, PartialEq, Eq)]
pub enum CurveClassicError {
    NotEnoughSegments { n: u32 },
    TooManySegments { n: u32 },
}

impl CurveClassicError {
    /// The message of this error.
    pub fn message(&self) -> (s: String)
        ensures
            s@ == match *self {
                CurveClassicError::NotEnoughSegments { n } => not_enough_segments_text(n),
                CurveClassicError::TooManySegments { n } => too_many_segments_text(n),
            },
    {
        match self {
            CurveClassicError::NotEnoughSegments { n } => with_number(
                "n = ",
                *n as u64,
                ". Number of segments must be at least 1.",
            ),
            CurveClassicError::TooManySegments { n } => with_number(
                "n = ",
                *n as u64,
                ". Number of segments must be no greater than 4096.",
            ),
        }
    }
}

/// Checks the number of segments of a Curve Classic: at least 1 and at most 4096.
pub fn check_segments(n: u32) -> (r: Result<(), CurveClassicError>)
    ensures
        r == if n < 1 {
            Err(CurveClassicError::NotEnoughSegments { n })
        } else if n > 4096 {
            Err(CurveClassicError::TooManySegments { n })
        } else {
            Ok(())
        },
{
    if n < 1 {
        return Err(CurveClassicError::NotEnoughSegments { n });
    }
    if n > MAX_SEGMENTS {
        return Err(CurveClassicError::TooManySegments { n });
    }
    Ok(())
}

} // verus!
