//! Points in time, as the store compares them.

use vstd::prelude::*;

verus! {

/// A point in time, counted in nanoseconds from the Unix epoch (negative
/// before it). Two timestamps are ordered as their counts are.
#[derive(Clone, Copy, Debug, PartialEq, Eq, Structural)]
pub struct Timestamp {
    nanos: i128,
}

impl View for Timestamp {
    type V = int;

    closed spec fn view(&self) -> int {
        self.nanos as int
    }
}

impl Timestamp {
    /// The timestamp `nanos` nanoseconds away from the Unix epoch.
    pub fn from_nanos(nanos: i128) -> (t: Timestamp)
        ensures
            t@ == nanos,
    {
        Timestamp { nanos }
    }

    /// The distance from the Unix epoch, in nanoseconds.
    pub fn nanos(&self) -> (n: i128)
        ensures
            n == self@,
    {
        self.nanos
    }

    /// Whether `self` lies strictly before `other`.
    pub fn is_before(&self, other: &Timestamp) -> (b: bool)
        ensures
            b == (self@ < other@),
    {
        self.nanos < other.nanos
    }
}

/// The model of an optional timestamp: the count it holds, if any.
pub open spec fn instant(t: Option<Timestamp>) -> Option<int> {
    match t {
        Some(t) => Some(t@),
        None => None,
    }
}

} // verus!
