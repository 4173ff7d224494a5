//! The panel of weather alerts.

use vstd::prelude::*;

verus! {

pub struct PreparedWeatherAlertSummary {}

pub struct PreparedWeatherAlertSummaries {
    pub location: String,
    pub summaries: Vec<PreparedWeatherAlertSummary>,
    pub details_url: String,
    pub width: usize,
}

impl PreparedWeatherAlertSummaries {
    /// The panel for `location`, before any alert is laid out: no rows, no
    /// width, and the empty text where no link to details was given.
    pub fn prepare(location: String, details_url: Option<String>) -> (prepared: Self)
        ensures
            prepared.location@ == location@,
            prepared.summaries@.len() == 0,
            prepared.width == 0,
            prepared.details_url@ == match details_url {
                Some(url) => url@,
                None => Seq::<char>::empty(),
            },
    {
        let summaries = Vec::new();
        let details_url = match details_url {
            Some(url) => url,
            None => String::new(),
        };
        let width: usize = 0;
        PreparedWeatherAlertSummaries { location, summaries, details_url, width }
    }

    /// The lines of the panel: so far there are none.
    pub fn render(self) -> (lines: Vec<String>)
        ensures
            lines@.len() == 0,
    {
        Vec::new()
    }
}

} // verus!
