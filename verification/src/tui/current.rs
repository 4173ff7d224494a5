//! The panel of the current weather.

use crate::codec::{title_case, title_case_text};
use crate::text::{
    byte_len, centred, first_char, left_aligned, pad_both, pad_right, truncated,
};
use crate::tui::border::{Edge, Separator};
use crate::tui::dimension::{Dimensions, MIN_CELL_WIDTH, MIN_WIDTH};
use crate::tui::weather::{sector_of, UnknownBearing, WindDirection};
use vstd::prelude::*;

verus! {

#[derive(Debug)]
pub struct PreparedCurrent<'a> {
    pub location: &'a str,
    pub condition_code: String,
    pub temperature: String,
    pub apparent_temperature: String,
    pub humidity: String,
    pub dew_point: String,
    pub wind: String,
    pub pressure: String,
    pub dimensions: Dimensions,
}

/// One line of a panel.
#[derive(Debug)]
pub enum PanelLine {
    /// A line of the frame, from border to border.
    Frame(String),
    /// What stands between the side borders of a row, padded to the row's
    /// width; `emphasis` asks for bold type. A row is written between its
    /// opening and its closing.
    Row { text: String, emphasis: bool },
}

/// What opens a row: the left border and a space.
pub open spec fn row_opening() -> Seq<char> {
    seq!['│', ' ']
}

/// What closes a row: a space and the right border.
pub open spec fn row_closing() -> Seq<char> {
    seq![' ', '│']
}

/// A line as it is written: a row between its opening and its closing, a
/// line of the frame as it is.
pub open spec fn written_line(line: (Seq<char>, bool, bool)) -> Seq<char> {
    if line.1 {
        row_opening() + line.0 + row_closing()
    } else {
        line.0
    }
}

impl PanelLine {
    /// The line as plain values: its text, whether it is a row, and whether
    /// it is emphasised.
    pub open spec fn view(self) -> (Seq<char>, bool, bool) {
        match self {
            PanelLine::Frame(text) => (text@, false, false),
            PanelLine::Row { text, emphasis } => (text@, true, emphasis),
        }
    }

    /// What is written before the line's text: the opening of a row, and
    /// nothing for a line of the frame.
    pub open spec fn opening(self) -> Seq<char> {
        if self@.1 {
            row_opening()
        } else {
            Seq::<char>::empty()
        }
    }

    /// What is written after the line's text: the closing of a row, and
    /// nothing for a line of the frame.
    pub open spec fn closing(self) -> Seq<char> {
        if self@.1 {
            row_closing()
        } else {
            Seq::<char>::empty()
        }
    }

    /// The line as it is written, without regard to emphasis.
    pub open spec fn written(self) -> Seq<char> {
        self.opening() + self@.0 + self.closing()
    }

    /// What is written before the line's text.
    pub fn opening_text(&self) -> (text: &'static str)
        ensures
            text@ == self.opening(),
    {
        proof {
            reveal_strlit("│ ");
            reveal_strlit("");
        }
        let text = match self {
            PanelLine::Frame(_) => "",
            PanelLine::Row { .. } => "│ ",
        };
        assert(text@ =~= self.opening());
        text
    }

    /// What is written after the line's text.
    pub fn closing_text(&self) -> (text: &'static str)
        ensures
            text@ == self.closing(),
    {
        proof {
            reveal_strlit(" │");
            reveal_strlit("");
        }
        let text = match self {
            PanelLine::Frame(_) => "",
            PanelLine::Row { .. } => " │",
        };
        assert(text@ =~= self.closing());
        text
    }

    /// The line as it is written, without regard to emphasis.
    pub fn written_text(&self) -> (line: String)
        ensures
            line@ == self.written(),
            line@ == written_line(self@),
    {
        let mut line = self.opening_text().to_owned();
        match self {
            PanelLine::Frame(text) => line.append(text.as_str()),
            PanelLine::Row { text, .. } => line.append(text.as_str()),
        }
        line.append(self.closing_text());
        assert(line@ =~= written_line(self@));
        line
    }
}

/// The wind as text: with a bearing, the arrow, the speed in kph and the
/// direction's abbreviation; without one, the speed in km/h.
pub open spec fn wind_line(bearing: Option<u16>, speed: Seq<char>) -> Seq<char> {
    match bearing {
        Some(degrees) => seq![sector_of(degrees as int % 360).icon(), ' '] + speed + "kph "@
            + sector_of(degrees as int % 360).label(),
        None => speed + "km/h"@,
    }
}

/// Writes the wind: `speed` is the speed as it is to be shown.
pub fn wind_text(bearing: Option<u16>, speed: &str) -> (text: Result<String, UnknownBearing>)
    ensures
        text matches Ok(t) && t@ == wind_line(bearing, speed@),
{
    match bearing {
        Some(degrees) => {
            let direction = match WindDirection::get_direction(degrees) {
                Ok(direction) => direction,
                Err(e) => {
                    return Err(e);
                },
            };
            let mut text = direction.icon_text().to_owned();
            text.append(" ");
            text.append(speed);
            text.append("kph ");
            text.append(direction.fmt());
            proof {
                reveal_strlit(" ");
                assert(text@ =~= wind_line(bearing, speed@));
            }
            Ok(text)
        },
        None => {
            let mut text = speed.to_owned();
            text.append("km/h");
            Ok(text)
        },
    }
}

/// The width of a cell: the humidity's length in bytes where that is more
/// than `MIN_CELL_WIDTH`, else two more than `MIN_CELL_WIDTH`.
pub open spec fn cell_width_for(humidity: Seq<char>) -> int {
    if byte_len(humidity) > MIN_CELL_WIDTH {
        byte_len(humidity) as int
    } else {
        MIN_CELL_WIDTH + 2
    }
}

impl<'a> PreparedCurrent<'a> {
    /// The panel's texts and widths. The texts are kept as given, but for the
    /// condition code, which is put in title case. The panel is `MIN_WIDTH`
    /// wide and 4 more for the title's padding.
    pub fn prepare(
        location: &'a str,
        condition_code: &str,
        temperature: String,
        apparent_temperature: String,
        humidity: String,
        dew_point: String,
        wind: String,
        pressure: String,
    ) -> (prepared: Self)
        ensures
            prepared.location@ == location@,
            prepared.condition_code@ == title_case_text(condition_code@),
            prepared.temperature@ == temperature@,
            prepared.apparent_temperature@ == apparent_temperature@,
            prepared.humidity@ == humidity@,
            prepared.dew_point@ == dew_point@,
            prepared.wind@ == wind@,
            prepared.pressure@ == pressure@,
            prepared.dimensions.term_width == MIN_WIDTH + 4,
            prepared.dimensions.cell_width == cell_width_for(humidity@),
    {
        let title_padding: usize = 2 * 2;
        let longest_cell_width = humidity.as_str().len();
        let term_width = MIN_WIDTH + title_padding;
        let cell_width = if longest_cell_width > MIN_CELL_WIDTH {
            longest_cell_width
        } else {
            MIN_CELL_WIDTH + 2
        };
        let dimensions = Dimensions::new(term_width, cell_width);
        PreparedCurrent {
            location,
            condition_code: title_case(condition_code),
            temperature,
            apparent_temperature,
            humidity,
            dew_point,
            wind,
            pressure,
            dimensions,
        }
    }

    /// The cells fit the panel: a cell is at least 1 wide, and two spaces
    /// and a cell are no wider than the panel.
    pub open spec fn fits(self) -> bool {
        &&& self.dimensions.cell_width >= 1
        &&& self.dimensions.cell_width + 2 <= self.dimensions.term_width
    }

    /// Whether the cells fit the panel.
    pub fn can_render(&self) -> (fits: bool)
        ensures
            fits == self.fits(),
    {
        self.dimensions.cell_width >= 1 && self.dimensions.cell_width <= usize::MAX - 2
            && self.dimensions.cell_width + 2 <= self.dimensions.term_width
    }

    /// The width of a row between the side borders and their spaces.
    pub open spec fn row_width(self) -> nat {
        (self.dimensions.term_width - 2) as nat
    }

    /// The row of condition and temperature.
    pub open spec fn condition_row(self) -> Seq<char> {
        left_aligned(self.condition_code@ + ", "@ + self.temperature@, self.row_width())
    }

    /// The row of the apparent temperature, of which the first character is
    /// shown.
    pub open spec fn apparent_row(self) -> Seq<char> {
        left_aligned(
            "Feels like "@ + truncated(self.apparent_temperature@, 1) + "ºC"@,
            self.row_width(),
        )
    }

    /// The row of humidity and dew point.
    pub open spec fn humidity_row(self) -> Seq<char> {
        left_aligned(
            left_aligned(self.humidity@, (self.dimensions.cell_width - 1) as nat) + seq![' ']
                + self.dew_point@,
            self.row_width(),
        )
    }

    /// The row of wind and pressure.
    pub open spec fn wind_row(self) -> Seq<char> {
        left_aligned(self.wind@, self.dimensions.cell_width as nat) + left_aligned(
            self.pressure@,
            (self.dimensions.term_width - 2 - self.dimensions.cell_width) as nat,
        )
    }

    /// The nine lines of the panel, as plain values.
    pub open spec fn panel(self) -> Seq<(Seq<char>, bool, bool)> {
        seq![
            (Edge::Top.text(self.dimensions.term_width as nat), false, false),
            (centred(self.location@, self.row_width()), true, true),
            (Separator::Single.text(self.dimensions.term_width as nat), false, false),
            (self.condition_row(), true, true),
            (self.apparent_row(), true, false),
            (Separator::Blank.text(self.dimensions.term_width as nat), false, false),
            (self.humidity_row(), true, false),
            (self.wind_row(), true, false),
            (Edge::Bottom.text(self.dimensions.term_width as nat), false, false),
        ]
    }

    /// The nine lines of the panel as they are written: each row between
    /// the side borders, a space apart from them.
    pub open spec fn written_panel(self) -> Seq<Seq<char>> {
        self.panel().map_values(|line: (Seq<char>, bool, bool)| written_line(line))
    }

    /// The lines of the panel, from the upper edge to the lower.
    pub fn render(self) -> (lines: Vec<PanelLine>)
        requires
            self.fits(),
        ensures
            lines@.map_values(|line: PanelLine| line@) == self.panel(),
            lines@.map_values(|line: PanelLine| line.written()) == self.written_panel(),
    {
        let (term_width, cell_width) = <(usize, usize)>::from(self.dimensions);
        let mut lines: Vec<PanelLine> = Vec::new();
        proof {
            reveal_strlit(" ");
        }

        // Border Top
        lines.push(PanelLine::Frame(Edge::Top.fmt(term_width)));

        // Address
        lines.push(PanelLine::Row { text: pad_both(self.location, term_width - 2), emphasis: true });

        // Separator
        lines.push(PanelLine::Frame(Separator::Single.fmt(term_width)));

        // Temperature and condition code
        let mut condition = self.condition_code;
        condition.append(", ");
        condition.append(self.temperature.as_str());
        lines.push(
            PanelLine::Row { text: pad_right(condition.as_str(), term_width - 2), emphasis: true },
        );

        // Apparent temperature
        let mut apparent = "Feels like ".to_owned();
        apparent.append(first_char(self.apparent_temperature.as_str()));
        apparent.append("ºC");
        lines.push(
            PanelLine::Row { text: pad_right(apparent.as_str(), term_width - 2), emphasis: false },
        );

        // Blank line
        lines.push(PanelLine::Frame(Separator::Blank.fmt(term_width)));

        // Humidity and dew point
        let mut humidity = pad_right(self.humidity.as_str(), cell_width - 1);
        humidity.append(" ");
        humidity.append(self.dew_point.as_str());
        assert(" "@ =~= seq![' ']);
        lines.push(
            PanelLine::Row { text: pad_right(humidity.as_str(), term_width - 2), emphasis: false },
        );

        // Wind and pressure
        let mut wind = pad_right(self.wind.as_str(), cell_width);
        wind.append(pad_right(self.pressure.as_str(), term_width - 2 - cell_width).as_str());
        lines.push(PanelLine::Row { text: wind, emphasis: false });

        lines.push(PanelLine::Frame(Edge::Bottom.fmt(term_width)));
        assert(lines@.map_values(|line: PanelLine| line@) =~= self.panel());
        assert(lines@.map_values(|line: PanelLine| line.written()) =~= self.written_panel()) by {
            assert forall|i: int| 0 <= i < lines@.len() implies lines@[i].written()
                == written_line(self.panel()[i]) by {
                assert(self.panel()[i] == lines@.map_values(|line: PanelLine| line@)[i]);
                assert(lines@[i].written() =~= written_line(lines@[i]@));
            }
        }
        lines
    }
}

} // verus!
