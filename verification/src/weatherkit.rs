//! The vocabulary of the weather service: the closed sets of values that its
//! answers use.

use vstd::prelude::*;

verus! {

pub const WEATHERKIT_API_BASE_URL: &'static str = "https://weatherkit.apple.com/api/v1";

/// The system of units that the weather data is reported in.
#[derive(Debug, Clone, Copy, PartialEq, Eq, Structural)]
pub enum UnitsSystem {
    /// Metric
    M,
}

/// The direction of change of the sea level air pressure.
#[derive(Eq, PartialEq, Debug, Clone, Copy, Structural)]
pub enum PressureTrend {
    /// The sea level air pressure is increasing.
    Rising,
    /// The sea level air pressure is decreasing.
    Falling,
    /// The sea level air pressure is remaining about the same.
    Steady,
}

impl PressureTrend {
    /// The trend in words.
    pub open spec fn label(self) -> Seq<char> {
        match self {
            PressureTrend::Rising => "rising"@,
            PressureTrend::Falling => "falling"@,
            PressureTrend::Steady => "steady"@,
        }
    }

    pub fn fmt(&self) -> (text: &'static str)
        ensures
            text@ == self.label(),
    {
        match self {
            PressureTrend::Rising => "rising",
            PressureTrend::Falling => "falling",
            PressureTrend::Steady => "steady",
        }
    }
}

/// The type of precipitation forecasted to occur during the day.
#[derive(Eq, PartialEq, Debug, Clone, Copy, Structural)]
pub enum PrecipitationType {
    /// No precipitation is occurring.
    Clear,
    /// An unknown type of precipitation is occurring.
    Precipitation,
    /// Rain or freezing rain is falling.
    Rain,
    /// Snow is falling.
    Snow,
    /// Sleet or ice pellets are falling.
    Sleet,
    /// Hail is falling
    Hail,
    /// Winter weather (wintery mix or wintery showers) is falling.
    Mixed,
}

/// The shape of the moon as seen by the observer on the ground at a given time.
#[derive(Eq, PartialEq, Debug, Clone, Copy, Structural)]
pub enum MoonPhase {
    /// The moon isn't visible.
    New,
    /// A crescent-shaped sliver of the moon is visible, and increasing in size.
    WaxingCrescent,
    /// Approximately half of the moon is visible, and increasing in size.
    FirstQuarter,
    /// The entire disc of the moon is visible.
    Full,
    /// More than half of the moon is visible, and increasing in size.
    WaxingGibbous,
    /// More than half of the moon is visible, and decreasing in size.
    WaningGibbous,
    /// Approximately half of the moon is visible, and decreasing in size.
    ThirdQuarter,
    /// A crescent-shaped sliver of the moon is visible, and decreasing in size.
    WaningCrescent,
}

/// How likely the event is to occur.
#[derive(Debug, Clone, Copy, PartialEq, Eq, Structural)]
pub enum Certainty {
    /// The event has already occurred or is ongoing.
    Observed,
    /// The event is likely to occur (greater than 50% probability).
    Likely,
    /// The event is unlikely to occur (less than 50% probability).
    Possible,
    /// The event is not expected to occur (approximately 0% probability).
    Unlikely,
    /// It is unknown if the event will occur.
    Unknown,
}

/// The recommended action from a reporting agency.
#[derive(Debug, Clone, Copy, PartialEq, Eq, Structural)]
pub enum ResponseType {
    /// Take shelter in place.
    Shelter,
    /// Relocate.
    Evacuate,
    /// Make preparations
    Prepare,
    /// Execute a pre-planned activity.
    Execute,
    /// Avoid the event.
    Avoid,
    /// Monitor the situation.
    Monitor,
    /// Assess the situation.
    Assess,
    /// The event no longer poses a threat.
    AllClear,
    /// No action recommended.
    NoAction,
}

/// The level of danger to life and property.
#[derive(Debug, Clone, Copy, PartialEq, Eq, Structural)]
pub enum Severity {
    /// Extraordinary threat.
    Extreme,
    /// Significant threat.
    Severe,
    /// Possible threat.
    Moderate,
    /// Minimal or no known threat.
    Minor,
    /// Unknown threat.
    Unknown,
}

/// An indication of urgency of action from the reporting agency.
#[derive(Debug, Clone, Copy, PartialEq, Eq, Structural)]
pub enum Urgency {
    /// Take responsive action immediately.
    Immediate,
    /// Take responsive action in the next hour.
    Expected,
    /// Take responsive action in the near future.
    Future,
    /// Responsive action is no longer required.
    Past,
    /// The urgency is unknown.
    Unknown,
}

/// The collection of weather information for a location.
#[derive(Eq, PartialEq, Debug, Clone, Copy, Structural)]
pub enum DataSet {
    /// The current weather for the requested location.
    CurrentWeather,
    /// The daily forecast for the requested location.
    ForecastDaily,
    /// The hourly forecast for the requested location.
    ForecastHourly,
    /// The next hour forecast for the requested location.
    ForecastNextHour,
    /// Weather alerts for the requested location.
    WeatherAlerts,
}

impl DataSet {
    /// The name by which a request asks for this data set.
    pub open spec fn label(self) -> Seq<char> {
        match self {
            DataSet::CurrentWeather => "currentWeather"@,
            DataSet::ForecastDaily => "forecastDaily"@,
            DataSet::ForecastHourly => "forecastHourly"@,
            DataSet::ForecastNextHour => "forecastNextHour"@,
            DataSet::WeatherAlerts => "weatherAlerts"@,
        }
    }

    pub fn fmt(&self) -> (text: &'static str)
        ensures
            text@ == self.label(),
    {
        match self {
            DataSet::CurrentWeather => "currentWeather",
            DataSet::ForecastDaily => "forecastDaily",
            DataSet::ForecastHourly => "forecastHourly",
            DataSet::ForecastNextHour => "forecastNextHour",
            DataSet::WeatherAlerts => "weatherAlerts",
        }
    }
}

/// What became of a request to the weather service.
#[derive(Eq, PartialEq, Debug, Clone, Copy, Structural)]
pub enum WeatherkitRequestError {
    /// The server is unable to process the request due to an invalid
    /// parameter value.
    BadRequest,
    /// The request isn't authorized or doesn't include the correct
    /// authentication information.
    Unauthorized,
    /// There's no active alert for the specified unique identifier.
    NotFound,
}

impl WeatherkitRequestError {
    /// The refusal in words.
    pub open spec fn message_text(self) -> Seq<char> {
        match self {
            WeatherkitRequestError::BadRequest => "The server is unable to process the request due to an invalid parameter value."@,
            WeatherkitRequestError::Unauthorized => "The request isn’t authorized or doesn’t include the correct authentication information."@,
            WeatherkitRequestError::NotFound => "There’s no active alert for the specified unique identifier."@,
        }
    }

    pub fn message(&self) -> (text: &'static str)
        ensures
            text@ == self.message_text(),
    {
        match self {
            WeatherkitRequestError::BadRequest => "The server is unable to process the request due to an invalid parameter value.",
            WeatherkitRequestError::Unauthorized => "The request isn’t authorized or doesn’t include the correct authentication information.",
            WeatherkitRequestError::NotFound => "There’s no active alert for the specified unique identifier.",
        }
    }
}

/// The status codes that the weather service answers with.
pub open spec fn is_known_status(status: u16) -> bool {
    status == 200 || status == 400 || status == 401
}

/// Whether the weather service answers with `status`.
pub fn status_is_known(status: u16) -> (known: bool)
    ensures
        known == is_known_status(status),
{
    status == 200 || status == 400 || status == 401
}

/// Reads the status code of an answer: 200 carries data, 400 and 401 are
/// refusals.
pub fn check_status(status: u16) -> (outcome: Result<(), WeatherkitRequestError>)
    requires
        is_known_status(status),
    ensures
        status == 200 ==> outcome == Ok::<(), WeatherkitRequestError>(()),
        status == 400 ==> outcome == Err::<(), WeatherkitRequestError>(
            WeatherkitRequestError::BadRequest,
        ),
        status == 401 ==> outcome == Err::<(), WeatherkitRequestError>(
            WeatherkitRequestError::Unauthorized,
        ),
{
    if status == 200 {
        Ok(())
    } else if status == 400 {
        Err(WeatherkitRequestError::BadRequest)
    } else {
        Err(WeatherkitRequestError::Unauthorized)
    }
}

} // verus!
