//! The widths of a panel and of its cells.

use vstd::prelude::*;

verus! {

pub const MIN_WIDTH: usize = 34;

pub const MIN_CELL_WIDTH: usize = MIN_WIDTH / 2 - 2;

#[derive(Copy, Clone, Eq, PartialEq, Debug, Structural)]
pub struct Dimensions {
    pub term_width: usize,
    pub cell_width: usize,
}

impl From<Dimensions> for (usize, usize) {
    fn from(value: Dimensions) -> (pair: Self) {
        (value.term_width, value.cell_width)
    }
}

impl vstd::std_specs::convert::FromSpecImpl<Dimensions> for (usize, usize) {
    open spec fn obeys_from_spec() -> bool {
        true
    }

    open spec fn from_spec(value: Dimensions) -> Self {
        (value.term_width, value.cell_width)
    }
}

impl Dimensions {
    pub fn new(term_width: usize, cell_width: usize) -> (dimensions: Self)
        ensures
            dimensions.term_width == term_width,
            dimensions.cell_width == cell_width,
    {
        Self { term_width, cell_width }
    }
}

} // verus!
