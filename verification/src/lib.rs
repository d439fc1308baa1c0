//! Page-level row selection for a columnar file reader.
//!
//! A column chunk is stored as a sequence of data pages, each covering a
//! contiguous run of row positions. Callers hand the resolver a contiguous
//! row range (in the coordinate space of the not-yet-consumed selection
//! stream), the page's absolute bounds, and the running offset of rows
//! already consumed; the resolver splits the range into the part this page
//! covers and the part that spills over to later pages.

pub mod data_page;
pub mod page_metadata;
pub mod row_range;
