//! Contiguous row ranges and the resolver's failure kind.

use vstd::prelude::*;

verus! {

/// A contiguous span of row positions, inclusive at both ends.
/// A single row is the range with `begin == end`.
#[derive(Debug, Clone, Copy, PartialEq, Eq, Structural)]
pub struct RowRange {
    pub begin: usize,
    pub end: usize,
}

impl RowRange {
    /// The range invariant: the span is non-empty and ordered.
    pub open spec fn wf(self) -> bool {
        self.begin <= self.end
    }

    pub fn new(begin: usize, end: usize) -> (range: RowRange)
        requires
            begin <= end,
        ensures
            range.begin == begin,
            range.end == end,
            range.wf(),
    {
        RowRange { begin, end }
    }
}

/// The single failure the resolver reports: the caller asked about a row
/// range whose translated begin precedes the page's first row, which can
/// only happen when pages are scanned out of order or the running offset
/// is maintained wrongly upstream.
#[derive(Debug, Clone, Copy, PartialEq, Eq, Structural)]
pub enum RangeResolveError {
    RangeConsistency { translated_begin: usize, page_begin: usize },
}

} // verus!
