//! The panel of the daily forecast: one row for each day.

use crate::codec::{title_case, title_case_text};
use crate::text::{byte_len, left_aligned, pad_left, pad_right, right_aligned};
use crate::tui::border::{Border, Edge, Separator};
use crate::tui::dimension::MIN_CELL_WIDTH;
use vstd::prelude::*;

verus! {

/// The room that is kept for a date, in bytes.
pub const DATE_ROOM: usize = 11;

pub struct PreparedDailySummary {
    pub date: String,
    pub temperature: String,
    pub condition_code: String,
}

pub struct PreparedDailySummaries {
    pub summaries: Vec<PreparedDailySummary>,
    pub width: usize,
}

/// A forecast without a single day has no panel.
#[derive(Eq, PartialEq, Debug, Clone, Copy, Structural)]
pub struct NoDays {}

impl PreparedDailySummary {
    /// One day's row: the date and the temperatures as given, the condition
    /// code in title case.
    pub fn new(date: String, temperature: String, condition_code: &str) -> (summary: Self)
        ensures
            summary.date@ == date@,
            summary.temperature@ == temperature@,
            summary.condition_code@ == title_case_text(condition_code@),
    {
        PreparedDailySummary { date, temperature, condition_code: title_case(condition_code) }
    }

    /// What this row asks of the panel's width: the condition code twice,
    /// and the temperatures, all in bytes.
    pub open spec fn measure(self) -> int {
        byte_len(self.condition_code@) + byte_len(self.temperature@) + byte_len(
            self.condition_code@,
        )
    }

    /// The panel's width for this row can be counted: the measure and 10
    /// more stay in the machine's range.
    pub open spec fn measurable(self) -> bool {
        self.measure() + 10 <= usize::MAX
    }

    /// Whether the panel's width for this row can be counted.
    pub fn is_measurable(&self) -> (measurable: bool)
        ensures
            measurable == self.measurable(),
    {
        let code_len = self.condition_code.as_str().len();
        let temperature_len = self.temperature.as_str().len();
        match code_len.checked_add(temperature_len) {
            Some(sum) => match sum.checked_add(code_len) {
                Some(measure) => measure <= usize::MAX - 10,
                None => false,
            },
            None => false,
        }
    }

    /// The room that the date takes: its length in bytes, and at least
    /// `DATE_ROOM`.
    pub open spec fn date_room(self) -> int {
        if byte_len(self.date@) > DATE_ROOM {
            byte_len(self.date@) as int
        } else {
            DATE_ROOM as int
        }
    }

    /// The width of the field that holds the condition code.
    pub open spec fn condition_width(self, term_width: usize, cell_width: usize) -> int {
        term_width - self.date_room() - byte_len(self.temperature@) - 5 + cell_width
            - MIN_CELL_WIDTH
    }

    /// The row fits a panel of these widths: no step of `condition_width`
    /// leaves the machine's range.
    pub open spec fn fits(self, term_width: usize, cell_width: usize) -> bool {
        &&& term_width - self.date_room() - byte_len(self.temperature@) - 5 >= 0
        &&& term_width - self.date_room() - byte_len(self.temperature@) - 5 + cell_width
            <= usize::MAX
        &&& self.condition_width(term_width, cell_width) >= 0
    }

    /// The row's text: the date in a cell, the temperatures, a space, and the
    /// condition code aligned to the right.
    pub open spec fn row_text(self, term_width: usize, cell_width: usize) -> Seq<char> {
        left_aligned(self.date@, cell_width as nat) + self.temperature@ + seq![' ']
            + right_aligned(
            self.condition_code@,
            self.condition_width(term_width, cell_width) as nat,
        )
    }

    /// Whether the row fits a panel of these widths.
    pub fn fits_in(&self, term_width: usize, cell_width: usize) -> (fits: bool)
        ensures
            fits == self.fits(term_width, cell_width),
    {
        let date_len = self.date.as_str().len();
        let date_room = if date_len > DATE_ROOM {
            date_len
        } else {
            DATE_ROOM
        };
        let temperature_len = self.temperature.as_str().len();
        if term_width < date_room {
            return false;
        }
        let past_date = term_width - date_room;
        if past_date < temperature_len {
            return false;
        }
        let past_temperature = past_date - temperature_len;
        if past_temperature < 5 {
            return false;
        }
        match (past_temperature - 5).checked_add(cell_width) {
            Some(room) => room >= MIN_CELL_WIDTH,
            None => false,
        }
    }

    pub fn render(&self, term_width: usize, cell_width: usize) -> (text: String)
        requires
            self.fits(term_width, cell_width),
        ensures
            text@ == self.row_text(term_width, cell_width),
    {
        let date_len = self.date.as_str().len();
        let date_room = if date_len > DATE_ROOM {
            date_len
        } else {
            DATE_ROOM
        };
        let width = term_width - date_room - self.temperature.as_str().len() - 5 + cell_width
            - MIN_CELL_WIDTH;
        let mut text = pad_right(self.date.as_str(), cell_width);
        text.append(self.temperature.as_str());
        text.append(" ");
        text.append(pad_left(self.condition_code.as_str(), width).as_str());
        proof {
            reveal_strlit(" ");
            assert(" "@ =~= seq![' ']);
        }
        text
    }
}

/// The largest measure among `summaries`; 0 where there is none.
pub open spec fn widest(summaries: Seq<PreparedDailySummary>) -> int
    decreases summaries.len(),
{
    if summaries.len() == 0 {
        0
    } else {
        let rest = widest(summaries.drop_last());
        if summaries.last().measure() > rest {
            summaries.last().measure()
        } else {
            rest
        }
    }
}

/// The inside of a framed row: `text` aligned to the left between two
/// spaces and the side borders.
pub open spec fn framed(text: Seq<char>, term_width: usize) -> Seq<char> {
    seq!['│', ' '] + left_aligned(text, (term_width - 2) as nat) + seq![' ', '│']
}

impl PreparedDailySummaries {
    /// The panel for the rows `summaries`: as wide as the widest row asks,
    /// and 10 more. There is no panel without a row.
    pub fn prepare(summaries: Vec<PreparedDailySummary>) -> (prepared: Result<Self, NoDays>)
        requires
            forall|i: int| 0 <= i < summaries@.len() ==> (#[trigger] summaries@[i]).measurable(),
        ensures
            prepared.is_ok() == (summaries@.len() > 0),
            prepared matches Ok(p) ==> p.summaries@ == summaries@ && p.width == widest(summaries@)
                + 10,
    {
        if summaries.len() == 0 {
            return Err(NoDays {  });
        }
        let mut most: usize = 0;
        let mut i: usize = 0;
        while i < summaries.len()
            invariant
                i <= summaries@.len(),
                most == widest(summaries@.take(i as int)),
                most + 10 <= usize::MAX,
                forall|k: int|
                    0 <= k < summaries@.len() ==> (#[trigger] summaries@[k]).measurable(),
            decreases summaries@.len() - i,
        {
            let summary = &summaries[i];
            let code_len = summary.condition_code.as_str().len();
            let measure = code_len + summary.temperature.as_str().len() + code_len;
            proof {
                assert(summaries@.take(i + 1).drop_last() =~= summaries@.take(i as int));
                assert(summaries@.take(i + 1).last() == summaries@[i as int]);
            }
            if measure > most {
                most = measure;
            }
            i = i + 1;
        }
        proof {
            assert(summaries@.take(summaries@.len() as int) =~= summaries@);
        }
        Ok(PreparedDailySummaries { summaries, width: most + 10 })
    }

    /// Every row fits the panel.
    pub open spec fn fits(self) -> bool {
        &&& self.width >= 2
        &&& forall|i: int|
            0 <= i < self.summaries@.len() ==> (#[trigger] self.summaries@[i]).fits(
                self.width,
                MIN_CELL_WIDTH,
            )
    }

    /// Whether every row fits the panel.
    pub fn can_render(&self) -> (fits: bool)
        ensures
            fits == self.fits(),
    {
        if self.width < 2 {
            return false;
        }
        let mut i: usize = 0;
        while i < self.summaries.len()
            invariant
                self.width >= 2,
                i <= self.summaries@.len(),
                forall|k: int|
                    0 <= k < i ==> (#[trigger] self.summaries@[k]).fits(self.width, MIN_CELL_WIDTH),
            decreases self.summaries@.len() - i,
        {
            if !self.summaries[i].fits_in(self.width, MIN_CELL_WIDTH) {
                return false;
            }
            i = i + 1;
        }
        true
    }

    /// The number of lines of the panel: the two edges, the rows, and a rule
    /// between any two rows.
    pub open spec fn line_count(self) -> nat {
        if self.summaries@.len() == 0 {
            2
        } else {
            2 * self.summaries@.len() + 1
        }
    }

    /// The line at `k`, for a line above the lower edge: the upper edge, then
    /// rows and rules in turn.
    pub open spec fn line_text(self, k: int) -> Seq<char> {
        if k == 0 {
            Edge::Top.text(self.width as nat)
        } else if k % 2 == 1 {
            framed(self.summaries@[(k - 1) / 2].row_text(self.width, MIN_CELL_WIDTH), self.width)
        } else {
            Separator::Single.text(self.width as nat)
        }
    }

    /// The lines of the panel, from the upper edge to the lower.
    pub fn render(self) -> (lines: Vec<String>)
        requires
            self.fits(),
        ensures
            lines@.len() == self.line_count(),
            forall|k: int| 0 <= k < lines@.len() - 1 ==> (#[trigger] lines@[k])@ == self.line_text(k),
            lines@[lines@.len() - 1]@ == Edge::Bottom.text(self.width as nat),
    {
        let term_width = self.width;
        let cell_width = MIN_CELL_WIDTH;
        let mut lines: Vec<String> = Vec::new();
        lines.push(Edge::Top.fmt(term_width));
        let mut i: usize = 0;
        while i < self.summaries.len()
            invariant
                self.fits(),
                term_width == self.width,
                cell_width == MIN_CELL_WIDTH,
                i <= self.summaries@.len(),
                lines@.len() == if i == 0 {
                    1int
                } else {
                    2 * i
                },
                forall|k: int| 0 <= k < lines@.len() ==> (#[trigger] lines@[k])@ == self.line_text(k),
            decreases self.summaries@.len() - i,
        {
            if i > 0 {
                lines.push(Separator::Single.fmt(term_width));
            }
            let row = self.summaries[i].render(term_width, cell_width);
            let mut line = Border::Left.fmt().to_owned();
            line.append(" ");
            line.append(pad_right(row.as_str(), term_width - 2).as_str());
            line.append(" ");
            line.append(Border::Right.fmt());
            proof {
                reveal_strlit(" ");
                assert(line@ =~= framed(row@, self.width));
                assert(lines@.len() == 2 * i + 1);
                assert((2 * i + 1 - 1) / 2 == i);
            }
            lines.push(line);
            i = i + 1;
        }
        lines.push(Edge::Bottom.fmt(term_width));
        lines
    }
}

} // verus!
