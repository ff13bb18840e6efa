//! Bank: a banked curve, a ring sloping up from its inner edge to its outer edge.

use vstd::prelude::*;
use crate::curve::{MAX_SEGMENTS, not_enough_segments_text, too_many_segments_text};
use crate::text::with_number;

verus! {

/// Why a Bank cannot be made.
#[derive(Debug, Clone, Copy, PartialEq, Eq)]
pub enum BankError {
    NotEnoughSegments { n: u32 },
    TooManySegments { n: u32 },
}

impl BankError {
    /// The message of this error.
    pub fn message(&self) -> (s: String)
        ensures
            s@ == match *self {
                BankError::NotEnoughSegments { n } => not_enough_segments_text(n),
                BankError::TooManySegments { n } => too_many_segments_text(n),
            },
    {
        match self {
            BankError::NotEnoughSegments { n } => with_number(
                "n = ",
                *n as u64,
                ". Number of segments must be at least 1.",
            ),
            BankError::TooManySegments { n } => with_number(
                "n = ",
                *n as u64,
                ". Number of segments must be no greater than 4096.",
            ),
        }
    }
}

/// Checks the number of segments of a Bank: at least 1 and at most 4096.
pub fn check_segments(n: u32) -> (r: Result<(), BankError>)
    ensures
        r == if n < 1 {
            Err(BankError::NotEnoughSegments { n })
        } else if n > 4096 {
            Err(BankError::TooManySegments { n })
        } else {
            Ok(())
        },
{
    if n < 1 {
        return Err(BankError::NotEnoughSegments { n });
    }
    if n > MAX_SEGMENTS {
        return Err(BankError::TooManySegments { n });
    }
    Ok(())
}

} // verus!
