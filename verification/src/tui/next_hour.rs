//! The panel of the forecast for the next hour.

use vstd::prelude::*;

verus! {

pub struct PreparedNextHourSummary {}

impl PreparedNextHourSummary {
    /// The line of one summary: so far it is empty.
    pub fn render(&self) -> (line: String)
        ensures
            line@ == Seq::<char>::empty(),
    {
        String::new()
    }
}

pub struct PreparedNextHourSummaries {
    pub location: String,
    pub summaries: Vec<PreparedNextHourSummary>,
    pub width: usize,
}

impl PreparedNextHourSummaries {
    /// The panel for `location`, before any summary is laid out.
    pub fn prepare(location: String) -> (prepared: Self)
        ensures
            prepared.location@ == location@,
            prepared.summaries@.len() == 0,
            prepared.width == 0,
    {
        let summaries: Vec<PreparedNextHourSummary> = Vec::new();
        let width: usize = summaries.len();
        PreparedNextHourSummaries { location, summaries, width }
    }

    /// The lines of the panel: one for each summary, in order.
    pub fn render(self) -> (lines: Vec<String>)
        ensures
            lines@.len() == self.summaries@.len(),
            forall|i: int| 0 <= i < lines@.len() ==> (#[trigger] lines@[i])@ == Seq::<char>::empty(),
    {
        let mut lines: Vec<String> = Vec::new();
        let mut i: usize = 0;
        while i < self.summaries.len()
            invariant
                i <= self.summaries@.len(),
                lines@.len() == i,
                forall|k: int| 0 <= k < lines@.len() ==> (#[trigger] lines@[k])@ == Seq::<char>::empty(),
            decreases self.summaries@.len() - i,
        {
            lines.push(self.summaries[i].render());
            i = i + 1;
        }
        lines
    }
}

} // verus!
