//! The page capability and its range resolver.
//!
//! Every concrete page kind exposes four descriptor facts (null
//! possibility, value count, starting row offset, value type width) and
//! inherits the two range-splitting operations, whose arithmetic does not
//! depend on the value type. Page bounds are inclusive at both ends, in
//! the same coordinate space as an already-offset row position: a row
//! position `p` of the unconsumed selection stream sits at `p + offset`
//! in page coordinates.

use vstd::math::{max, min};
use vstd::prelude::*;

use crate::row_range::{RangeResolveError, RowRange};

verus! {

/// Whether the caller may ask this page about `row_range` at all: the
/// translated begin must not precede the page's first row.
pub open spec fn range_consistent(page_begin: int, offset: int, row_range: RowRange) -> bool {
    row_range.begin + offset >= page_begin
}

/// The part of `row_range` that the page with last row `page_end` covers,
/// as a pair of row positions in the caller's (un-offset) coordinate
/// space; `None` when the translated begin lies strictly past the page.
pub open spec fn covered_spec(page_end: int, offset: int, row_range: RowRange) -> Option<(
    int,
    int,
)> {
    if row_range.begin + offset > page_end {
        None
    } else {
        Some((row_range.begin as int, min(row_range.end as int, page_end - offset)))
    }
}

/// The part of `row_range` that extends past the page with last row
/// `page_end`, in the caller's coordinate space; `None` when the
/// translated end is within the page.
pub open spec fn remaining_spec(page_end: int, offset: int, row_range: RowRange) -> Option<(
    int,
    int,
)> {
    if row_range.end + offset <= page_end {
        None
    } else {
        Some((max(row_range.begin as int, page_end - offset), row_range.end as int))
    }
}

/// An optional `RowRange` as the pair of mathematical row positions it
/// stands for.
pub open spec fn range_option_view(opt: Option<RowRange>) -> Option<(int, int)> {
    match opt {
        None => None,
        Some(range) => Some((range.begin as int, range.end as int)),
    }
}

/// A capability of every concrete data page: the four descriptor facts,
/// plus the two range-splitting operations shared by all page kinds.
pub trait DataPage<T> {
    /// Whether the page can contain nulls.
    spec fn spec_has_null(&self) -> bool;

    /// How many values the page holds.
    spec fn spec_num_values(&self) -> usize;

    /// The page's starting row offset within its column chunk.
    spec fn spec_offset(&self) -> usize;

    /// The width in bytes of the page's value type.
    spec fn spec_type_size(&self) -> usize;

    fn data_page_has_null(&self) -> (has_null: bool)
        ensures
            has_null == self.spec_has_null(),
    ;

    fn get_data_page_num_values(&self) -> (num_values: usize)
        ensures
            num_values == self.spec_num_values(),
    ;

    fn get_data_page_offset(&self) -> (offset: usize)
        ensures
            offset == self.spec_offset(),
    ;

    fn get_data_page_type_size(&self) -> (type_size: usize)
        ensures
            type_size == self.spec_type_size(),
    ;

    /// The part of `row_range` that this page covers, to be decoded
    /// against this page; boundary-inclusive: a translated begin equal to
    /// `page_end` is still covered.
    fn get_data_page_covered_range(
        &self,
        page_begin: usize,
        page_end: usize,
        offset: usize,
        row_range: &RowRange,
    ) -> (res: Result<Option<RowRange>, RangeResolveError>)
        requires
            row_range.wf(),
            row_range.begin + offset <= usize::MAX,
        ensures
            res is Ok <==> range_consistent(page_begin as int, offset as int, *row_range),
            res matches Err(err) ==> err == (RangeResolveError::RangeConsistency {
                translated_begin: (row_range.begin + offset) as usize,
                page_begin,
            }),
            res matches Ok(covered) ==> range_option_view(covered) == covered_spec(
                page_end as int,
                offset as int,
                *row_range,
            ),
            res matches Ok(covered) ==> (covered is None <==> row_range.begin + offset
                > page_end),
            res matches Ok(covered) ==> (covered matches Some(range) ==> range.wf()),
    {
        let begin = row_range.begin + offset;

        if begin < page_begin {
            return Err(
                RangeResolveError::RangeConsistency { translated_begin: begin, page_begin },
            );
        }
        if begin <= page_end {
            let page_last = page_end - offset;
            let end = if row_range.end < page_last {
                row_range.end
            } else {
                page_last
            };
            return Ok(Some(RowRange::new(row_range.begin, end)));
        }
        Ok(None)
    }

    /// The part of `row_range` that extends past this page, to be matched
    /// against subsequent pages; its begin is clamped up to the first row
    /// position not yet covered by this page.
    fn get_data_page_remaining_range(
        &self,
        page_begin: usize,
        page_end: usize,
        offset: usize,
        row_range: &RowRange,
    ) -> (res: Result<Option<RowRange>, RangeResolveError>)
        requires
            row_range.wf(),
            row_range.end + offset <= usize::MAX,
            range_consistent(page_begin as int, offset as int, *row_range) && row_range.end
                + offset > page_end ==> offset <= page_end,
        ensures
            res is Ok <==> range_consistent(page_begin as int, offset as int, *row_range),
            res matches Err(err) ==> err == (RangeResolveError::RangeConsistency {
                translated_begin: (row_range.begin + offset) as usize,
                page_begin,
            }),
            res matches Ok(remaining) ==> range_option_view(remaining) == remaining_spec(
                page_end as int,
                offset as int,
                *row_range,
            ),
            res matches Ok(remaining) ==> (remaining is None <==> row_range.end + offset
                <= page_end),
            res matches Ok(remaining) ==> (remaining matches Some(range) ==> range.wf()),
    {
        let begin = row_range.begin + offset;
        let end = row_range.end + offset;

        if begin < page_begin {
            return Err(
                RangeResolveError::RangeConsistency { translated_begin: begin, page_begin },
            );
        }
        if end <= page_end {
            return Ok(None);
        }
        let page_last = page_end - offset;
        let next_begin = if row_range.begin > page_last {
            row_range.begin
        } else {
            page_last
        };
        Ok(Some(RowRange::new(next_begin, row_range.end)))
    }
}

/// Whether the pair of row positions `span` exists and contains `pos`.
pub open spec fn option_range_contains(span: Option<(int, int)>, pos: int) -> bool {
    match span {
        None => false,
        Some(pair) => pair.0 <= pos <= pair.1,
    }
}

/// Law: over one page, the covered and remaining slices together report
/// exactly the requested rows — a row position lies in at least one of
/// them if and only if it lies in `row_range`, so no requested row is
/// dropped at a page boundary and no unrequested row is invented.
pub proof fn lemma_row_accounted(
    page_begin: int,
    page_end: int,
    offset: int,
    row_range: RowRange,
    pos: int,
)
    requires
        row_range.wf(),
        range_consistent(page_begin, offset, row_range),
    ensures
        (option_range_contains(covered_spec(page_end, offset, row_range), pos)
            || option_range_contains(remaining_spec(page_end, offset, row_range), pos))
            <==> row_range.begin <= pos <= row_range.end,
{
}

/// Law: over one page, no row position other than the page's own last row
/// (the one whose translated position equals `page_end`) is reported both
/// covered and remaining, so no row is decoded twice.
pub proof fn lemma_row_not_double_counted(
    page_begin: int,
    page_end: int,
    offset: int,
    row_range: RowRange,
    pos: int,
)
    requires
        row_range.wf(),
        range_consistent(page_begin, offset, row_range),
        pos + offset != page_end,
    ensures
        !(option_range_contains(covered_spec(page_end, offset, row_range), pos)
            && option_range_contains(remaining_spec(page_end, offset, row_range), pos)),
{
}

/// Law: boundary inclusivity — a row range whose translated begin equals
/// exactly `page_end` is reported covered, as the singleton slice holding
/// its first row.
pub proof fn lemma_page_end_boundary_covered(page_end: int, offset: int, row_range: RowRange)
    requires
        row_range.wf(),
        row_range.begin + offset == page_end,
    ensures
        covered_spec(page_end, offset, row_range) matches Some(pair) && pair
            == (row_range.begin as int, row_range.begin as int),
{
}

} // verus!
