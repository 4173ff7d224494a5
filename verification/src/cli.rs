//! What the command line asks for.

use vstd::prelude::*;

verus! {

#[derive(Copy, Clone, Eq, PartialEq, Ord, PartialOrd, Debug)]
pub enum Forecast {
    /// Get the current forecast
    Current,
    /// Get the 10-day forecast
    Weekly,
    /// Get the hourly forecast
    Hourly,
    /// Get the forecast for the next hour
    NextHour,
    /// Get any alerts
    Alerts,
}

#[derive(Debug)]
pub struct Cli {
    /// The forecast to display
    pub forecast: Forecast,
}

impl Default for Cli {
    /// Without a choice, the current forecast is shown.
    fn default() -> (cli: Self)
        ensures
            cli.forecast == Forecast::Current,
    {
        Self { forecast: Forecast::Current }
    }
}

} // verus!
