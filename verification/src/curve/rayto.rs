//! Rayto: rays from a circular arc to one corner point, filling the space an arc leaves.

use vstd::prelude::*;
use crate::curve::{MAX_SEGMENTS, not_enough_segments_text, too_many_segments_text};
use crate::text::with_number;

verus! {

/// Why a Rayto cannot be made.
#[derive(Debug, Clone, Copy, PartialEq, Eq)]
pub enum RaytoError {
    NotEnoughSegments { n: u32 },
    TooManySegments { n: u32 },
}

impl RaytoError {
    /// The message of this error.
    pub fn message(&self) -> (s: String)
        ensures
            s@ == match *self {
                RaytoError::NotEnoughSegments { n } => not_enough_segments_text(n),
                RaytoError::TooManySegments { n } => too_many_segments_text(n),
            },
    {
        match self {
            RaytoError::NotEnoughSegments { n } => with_number(
                "n = ",
                *n as u64,
                ". Number of segments must be at least 1.",
            ),
            RaytoError::TooManySegments { n } => with_number(
                "n = ",
                *n as u64,
                ". Number of segments must be no greater than 4096.",
            ),
        }
    }
}

/// Checks the number of segments of a Rayto: at least 1 and at most 4096.
pub fn check_segments(n: u32) -> (r: Result<(), RaytoError>)
    ensures
        r == if n < 1 {
            Err(RaytoError::NotEnoughSegments { n })
        } else if n > 4096 {
            Err(RaytoError::TooManySegments { n })
        } else {
            Ok(())
        },
{
    if n < 1 {
        return Err(RaytoError::NotEnoughSegments { n });
    }
    if n > MAX_SEGMENTS {
        return Err(RaytoError::TooManySegments { n });
    }
    Ok(())
}

} // verus!
