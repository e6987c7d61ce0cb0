//! Character-index ranges with optionally unbounded, optionally inclusive
//! endpoints, and their normalization to a half-open pair of positions.
use vstd::prelude::*;

verus! {

/// One endpoint of a character range: a position that is part of the range,
/// a position just outside it, or no limit at all.
#[derive(Clone, Copy, Debug, Eq, Ord, PartialOrd, PartialEq)]
pub enum CharBound {
    Included(usize),
    Excluded(usize),
    Unbounded,
}

/// A range of character positions, both ends optionally unbounded or
/// inclusive. It normalizes to the half-open range
/// `[start_position(), end_position())`.
#[derive(Clone, Copy, Debug, Eq, Ord, PartialOrd, PartialEq)]
pub struct CharRange {
    pub start: CharBound,
    pub end: CharBound,
}

/// `v + 1`, saturating at the largest `usize` value.
pub open spec fn saturating_inc(v: usize) -> int {
    if v == usize::MAX {
        v as int
    } else {
        v + 1
    }
}

/// The first character position covered by a range starting at `b`:
/// an unbounded start begins at position zero, an excluded start just
/// after the given position.
pub open spec fn start_position_of(b: CharBound) -> int {
    match b {
        CharBound::Included(v) => v as int,
        CharBound::Excluded(v) => saturating_inc(v),
        CharBound::Unbounded => 0,
    }
}

/// The first character position past a range ending at `b`: an unbounded
/// end reaches past any possible text, an included end one past the given
/// position.
pub open spec fn end_position_of(b: CharBound) -> int {
    match b {
        CharBound::Included(v) => saturating_inc(v),
        CharBound::Excluded(v) => v as int,
        CharBound::Unbounded => usize::MAX as int,
    }
}

impl CharRange {
    /// The normalized (inclusive) start position.
    pub open spec fn start_position(self) -> int {
        start_position_of(self.start)
    }

    /// The normalized (exclusive) end position.
    pub open spec fn end_position(self) -> int {
        end_position_of(self.end)
    }

    /// A range with explicit endpoints.
    pub fn new(start: CharBound, end: CharBound) -> (r: CharRange)
        ensures
            r == (CharRange { start, end }),
    {
        CharRange { start, end }
    }

    /// The characters at positions `start <= i < end`.
    pub fn span(start: usize, end: usize) -> (r: CharRange)
        ensures
            r.start_position() == start,
            r.end_position() == end,
    {
        CharRange { start: CharBound::Included(start), end: CharBound::Excluded(end) }
    }

    /// The characters at positions `start <= i`.
    pub fn starting_at(start: usize) -> (r: CharRange)
        ensures
            r.start_position() == start,
            r.end_position() == usize::MAX,
    {
        CharRange { start: CharBound::Included(start), end: CharBound::Unbounded }
    }

    /// The characters at positions `i < end`.
    pub fn up_to(end: usize) -> (r: CharRange)
        ensures
            r.start_position() == 0,
            r.end_position() == end,
    {
        CharRange { start: CharBound::Unbounded, end: CharBound::Excluded(end) }
    }

    /// The characters at positions `i <= end`.
    pub fn up_to_inclusive(end: usize) -> (r: CharRange)
        ensures
            r.start_position() == 0,
            r.end_position() == saturating_inc(end),
    {
        CharRange { start: CharBound::Unbounded, end: CharBound::Included(end) }
    }

    /// All characters.
    pub fn everything() -> (r: CharRange)
        ensures
            r.start_position() == 0,
            r.end_position() == usize::MAX,
    {
        CharRange { start: CharBound::Unbounded, end: CharBound::Unbounded }
    }

    /// Computes the normalized start position.
    pub fn exec_start_position(&self) -> (p: usize)
        ensures
            p == self.start_position(),
    {
        match self.start {
            CharBound::Included(v) => v,
            CharBound::Excluded(v) => v.saturating_add(1),
            CharBound::Unbounded => 0,
        }
    }

    /// Computes the normalized end position.
    pub fn exec_end_position(&self) -> (p: usize)
        ensures
            p == self.end_position(),
    {
        match self.end {
            CharBound::Included(v) => v.saturating_add(1),
            CharBound::Excluded(v) => v,
            CharBound::Unbounded => usize::MAX,
        }
    }
}

} // verus!
