//! Half-open and closed scalar ranges.

use vstd::prelude::*;
use crate::traits::Scalar;

verus! {

/// A half-open range: `start` included, `end` excluded.
#[derive(Debug, Clone, Copy, Default, PartialEq, Eq, Hash)]
pub struct Range<Idx> {
    pub start: Idx,
    pub end: Idx,
}

/// A closed range: both bounds included.
#[derive(Debug, Clone, Copy, PartialEq, Eq, Hash)]
pub struct RangeInclusive<Idx> {
    pub start: Idx,
    pub end: Idx,
}

impl<Idx: Scalar> Range<Idx> {
    pub fn contains(&self, item: &Idx) -> (r: bool)
        ensures
            r == (self.start.as_int() <= item.as_int() && item.as_int() < self.end.as_int()),
    {
        self.start.le(*item) && item.lt(self.end)
    }

    pub fn is_valid(&self) -> (r: bool)
        ensures
            r == (self.start.as_int() <= self.end.as_int()),
    {
        self.start.le(self.end)
    }

    pub fn is_empty(&self) -> (r: bool)
        ensures
            r == !(self.start.as_int() < self.end.as_int()),
    {
        !self.start.lt(self.end)
    }
}

impl<Idx: Scalar> RangeInclusive<Idx> {
    pub fn contains(&self, item: &Idx) -> (r: bool)
        ensures
            r == (self.start.as_int() <= item.as_int() && item.as_int() <= self.end.as_int()),
    {
        self.start.le(*item) && item.le(self.end)
    }

    pub fn is_valid(&self) -> (r: bool)
        ensures
            r == (self.start.as_int() <= self.end.as_int()),
    {
        self.start.le(self.end)
    }
}

} // verus!
