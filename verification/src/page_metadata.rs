//! A plain page-descriptor snapshot.
//!
//! The decoding layer reads these four facts out of a page header; the
//! scan layer only ever needs the facts themselves, so a concrete page
//! kind that carries nothing else suffices wherever the resolver is
//! exercised without a real decoder behind it.

use core::marker::PhantomData;

use vstd::prelude::*;

use crate::data_page::DataPage;

verus! {

/// The descriptor facts of a page holding values of type `T`, with no
/// backing buffer.
#[derive(Debug)]
pub struct PageMetadata<T> {
    pub has_null: bool,
    pub num_values: usize,
    pub offset: usize,
    pub type_size: usize,
    pub value_type: PhantomData<T>,
}

impl<T> PageMetadata<T> {
    pub fn new(has_null: bool, num_values: usize, offset: usize, type_size: usize) -> (page:
        PageMetadata<T>)
        ensures
            page.has_null == has_null,
            page.num_values == num_values,
            page.offset == offset,
            page.type_size == type_size,
    {
        PageMetadata { has_null, num_values, offset, type_size, value_type: PhantomData }
    }
}

impl<T> DataPage<T> for PageMetadata<T> {
    open spec fn spec_has_null(&self) -> bool {
        self.has_null
    }

    open spec fn spec_num_values(&self) -> usize {
        self.num_values
    }

    open spec fn spec_offset(&self) -> usize {
        self.offset
    }

    open spec fn spec_type_size(&self) -> usize {
        self.type_size
    }

    fn data_page_has_null(&self) -> bool {
        self.has_null
    }

    fn get_data_page_num_values(&self) -> usize {
        self.num_values
    }

    fn get_data_page_offset(&self) -> usize {
        self.offset
    }

    fn get_data_page_type_size(&self) -> usize {
        self.type_size
    }
}

} // verus!
