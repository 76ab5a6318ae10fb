//! Instants of time.
use vstd::prelude::*;

verus! {

/// An instant in UTC: microseconds since the Unix epoch.
#[derive(Clone, Copy, Debug, PartialEq, Eq, Hash, Structural)]
pub struct Timestamp(pub i64);

impl View for Timestamp {
    type V = int;

    open spec fn view(&self) -> int {
        self.0 as int
    }
}

impl Timestamp {
    pub fn from_micros(micros: i64) -> (r: Self)
        ensures
            r.0 == micros,
    {
        Timestamp(micros)
    }

    pub fn micros(&self) -> (r: i64)
        ensures
            r == self.0,
    {
        self.0
    }

    /// Whether this instant is not later than the other.
    pub fn not_after(&self, other: &Timestamp) -> (r: bool)
        ensures
            r == (self@ <= other@),
    {
        self.0 <= other.0
    }
}

} // verus!
