//! The panel of the hourly forecast.

use vstd::prelude::*;

verus! {

pub struct PreparedHourlySummary {}

pub struct PreparedHourlySummeries<'a> {
    pub location: &'a str,
    pub summaries: Vec<PreparedHourlySummary>,
    pub width: usize,
}

impl<'a> PreparedHourlySummeries<'a> {
    /// The panel for the city `location`, before any hour is laid out.
    pub fn prepare(location: &'a str) -> (prepared: Self)
        ensures
            prepared.location@ == location@,
            prepared.summaries@.len() == 0,
            prepared.width == 0,
    {
        let summaries = Vec::new();
        PreparedHourlySummeries { location, summaries, width: 0 }
    }

    /// The lines of the panel: so far there are none.
    pub fn render(self) -> (lines: Vec<String>)
        ensures
            lines@.len() == 0,
    {
        Vec::new()
    }
}

} // verus!
