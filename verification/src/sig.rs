//! Signal numbers as plain values.
//!
//! The OS identifies a signal by a small positive integer. This module
//! gives the library its own signal type holding that number, with the
//! range invariant that every POSIX platform this library targets
//! guarantees: signal numbers run from 1 up to a fixed maximum.

use vstd::prelude::*;

verus! {

/// The largest signal number this library models: the standard
/// (non-realtime) POSIX signals, numbered 1 through 31 on Linux.
pub const MAX_SIGNAL_NUMBER: i32 = 31;

/// A signal number: a plain integer in `1 ..= MAX_SIGNAL_NUMBER`.
#[derive(Clone, Copy, PartialEq, Eq, Structural, Debug)]
pub struct Sig {
    number: i32,
}

impl Sig {
    /// The signal number as a mathematical integer.
    pub closed spec fn spec_number(self) -> int {
        self.number as int
    }

    /// The number is in the valid signal range. Every value built by
    /// this module satisfies it.
    pub open spec fn valid(self) -> bool {
        1 <= self.spec_number() <= MAX_SIGNAL_NUMBER as int
    }

    /// Builds a signal from its OS number; `None` when the number is
    /// outside the valid range.
    pub fn from_number(number: i32) -> (r: Option<Sig>)
        ensures
            (1 <= number <= MAX_SIGNAL_NUMBER) <==> r is Some,
            r is Some ==> r->0.spec_number() == number && r->0.valid(),
    {
        if 1 <= number && number <= MAX_SIGNAL_NUMBER {
            Some(Sig { number })
        } else {
            None
        }
    }

    /// The OS signal number.
    pub fn number(self) -> (r: i32)
        ensures
            r == self.spec_number(),
    {
        self.number
    }
}

} // verus!
