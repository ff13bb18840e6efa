//! Catenary: the curve of a hanging rope. Its shape is found with floating-point
//! arithmetic (Newton's method), which stays outside this library; what is checked here is
//! its number of segments.

use vstd::prelude::*;
use crate::curve::{MAX_SEGMENTS, not_enough_segments_text, too_many_segments_text};
use crate::text::with_number;

verus! {

/// Why a catenary cannot have the number of segments it was given.
#[derive(Debug, Clone, Copy, PartialEq, Eq)]
pub enum CatenarySegmentsError {
    NotEnoughSegments { n: u32 },
    TooManySegments { n: u32 },
}

impl CatenarySegmentsError {
    /// The message of this error.
    pub fn message(&self) -> (s: String)
        ensures
            s@ == match *self {
                CatenarySegmentsError::NotEnoughSegments { n } => not_enough_segments_text(n),
                CatenarySegmentsError::TooManySegments { n } => too_many_segments_text(n),
            },
    {
        match self {
            CatenarySegmentsError::NotEnoughSegments { n } => with_number(
                "n = ",
                *n as u64,
                ". Number of segments must be at least 1.",
            ),
            CatenarySegmentsError::TooManySegments { n } => with_number(
                "n = ",
                *n as u64,
                ". Number of segments must be no greater than 4096.",
            ),
        }
    }
}

/// Checks the number of segments of a catenary: at least 1 and at most 4096.
pub fn check_segments(n: u32) -> (r: Result<(), CatenarySegmentsError>)
    ensures
        r == if n < 1 {
            Err(CatenarySegmentsError::NotEnoughSegments { n })
        } else if n > 4096 {
            Err(CatenarySegmentsError::TooManySegments { n })
        } else {
            Ok(())
        },
{
    if n < 1 {
        return Err(CatenarySegmentsError::NotEnoughSegments { n });
    }
    if n > MAX_SEGMENTS {
        return Err(CatenarySegmentsError::TooManySegments { n });
    }
    Ok(())
}

} // verus!
