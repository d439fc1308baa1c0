use row_selection::data_page::DataPage;
use row_selection::page_metadata::PageMetadata;
use row_selection::row_range::RowRange;

/// A plain data page of 10000 `i64` values starting at the given row
/// offset within its column chunk, with no nulls.
fn make_plain_data_page(data_page_offset: usize) -> PageMetadata<i64> {
    PageMetadata::new(false, 10000, data_page_offset, std::mem::size_of::<i64>())
}

#[test]
fn test_covered_range() {
    let data_page_offset: usize = 100;
    let data_page = make_plain_data_page(data_page_offset);

    let row_range = RowRange::new(1, 5);
    let offset: usize = 1000;
    let res = data_page.get_data_page_covered_range(
        data_page.get_data_page_offset(),
        data_page.get_data_page_num_values() + data_page.get_data_page_offset(),
        offset,
        &row_range,
    );
    assert!(res.is_ok());
    let res = res.unwrap();
    assert!(res.is_some());
    let covered_range = res.unwrap();
    assert_eq!(covered_range.begin, row_range.begin);
    assert_eq!(covered_range.end, row_range.end);

    let row_range = RowRange::new(1, 100000000);
    let offset: usize = 1000;
    let res = data_page.get_data_page_covered_range(
        data_page.get_data_page_offset(),
        data_page.get_data_page_num_values() + data_page.get_data_page_offset(),
        offset,
        &row_range,
    );
    assert!(res.is_ok());
    let res = res.unwrap();
    assert!(res.is_some());
    let covered_range = res.unwrap();
    assert_eq!(covered_range.begin, row_range.begin);
    assert_eq!(
        covered_range.end,
        data_page.get_data_page_num_values() + data_page_offset - offset
    );
}

#[test]
fn test_nonexistent_covered_range() {
    let data_page_offset: usize = 100;
    let data_page = make_plain_data_page(data_page_offset);

    let row_range = RowRange::new(1, 5);
    let offset: usize = 10000000;
    let res = data_page.get_data_page_covered_range(
        data_page.get_data_page_offset(),
        data_page.get_data_page_num_values() + data_page.get_data_page_offset(),
        offset,
        &row_range,
    );

    assert!(res.is_ok());
    let res = res.unwrap();
    assert!(res.is_none());
}

#[test]
fn test_invalid_covered_range() {
    let data_page_offset: usize = 100;
    let data_page = make_plain_data_page(data_page_offset);

    let row_range = RowRange::new(1, 5);
    let offset: usize = 10;
    let res = data_page.get_data_page_covered_range(
        data_page.get_data_page_offset(),
        data_page.get_data_page_num_values() + data_page.get_data_page_offset(),
        offset,
        &row_range,
    );

    assert!(res.is_err());
}

#[test]
fn test_remaining_range() {
    let data_page_offset: usize = 100;
    let data_page = make_plain_data_page(data_page_offset);

    let row_range = RowRange::new(1, 100000000);
    let offset: usize = 1000;
    let res = data_page.get_data_page_remaining_range(
        data_page.get_data_page_offset(),
        data_page.get_data_page_num_values() + data_page.get_data_page_offset(),
        offset,
        &row_range,
    );
    assert!(res.is_ok());
    let res = res.unwrap();
    assert!(res.is_some());
    let covered_range = res.unwrap();
    assert_eq!(
        covered_range.begin,
        data_page.get_data_page_num_values() + data_page_offset - offset
    );
    assert_eq!(covered_range.end, row_range.end);

    let row_range = RowRange::new(10000000, 100000000);
    let offset: usize = 1000;
    let res = data_page.get_data_page_remaining_range(
        data_page.get_data_page_offset(),
        data_page.get_data_page_num_values() + data_page.get_data_page_offset(),
        offset,
        &row_range,
    );
    assert!(res.is_ok());
    let res = res.unwrap();
    assert!(res.is_some());
    let covered_range = res.unwrap();
    assert_eq!(covered_range.begin, row_range.begin);
    assert_eq!(covered_range.end, row_range.end);
}

#[test]
fn test_nonexistent_remaining_range() {
    let data_page_offset: usize = 100;
    let data_page = make_plain_data_page(data_page_offset);

    let row_range = RowRange::new(1, 5);
    let offset: usize = 1000;
    let res = data_page.get_data_page_remaining_range(
        data_page.get_data_page_offset(),
        data_page.get_data_page_num_values() + data_page.get_data_page_offset(),
        offset,
        &row_range,
    );

    assert!(res.is_ok());
    let res = res.unwrap();
    assert!(res.is_none());
}

#[test]
fn test_invalid_remaining_range() {
    let data_page_offset: usize = 100;
    let data_page = make_plain_data_page(data_page_offset);

    let row_range = RowRange::new(1, 5);
    let offset: usize = 10;
    let res = data_page.get_data_page_covered_range(
        data_page.get_data_page_offset(),
        data_page.get_data_page_num_values() + data_page.get_data_page_offset(),
        offset,
        &row_range,
    );

    assert!(res.is_err());
}
