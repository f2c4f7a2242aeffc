//! The typed weather response and its rendering: a multi-line report on
//! success, one fixed fallback message on any failure.
//!
//! The fractional measurements (temperature, wind speed, pressure,
//! precipitation) are carried as their decimal display text: the library
//! never computes with them, it only lays them out. The integer percentages
//! are rendered here.
use crate::icon::get_weather_emoji;
use crate::icon::spec_weather_emoji;
use crate::numeral::i32_to_decimal;
use crate::numeral::spec_decimal;
use vstd::prelude::*;
use vstd::string::StringExecFns;

verus! {

/// Where the conditions were measured. No invariants beyond presence.
pub struct Location {
    pub name: String,
    pub region: String,
    pub country: String,
}

/// The provider's description of the weather phenomenon: its display text
/// and its condition code.
pub struct Condition {
    pub text: String,
    pub code: i32,
}

/// The current conditions. `humidity` and `cloud` are percentages, expected
/// in 0 to 100 but not enforced; the remaining measurements are decimal
/// display text.
pub struct Current {
    pub temp_c: String,
    pub feelslike_c: String,
    pub wind_kph: String,
    pub wind_dir: String,
    pub pressure_mb: String,
    pub precip_mm: String,
    pub humidity: i32,
    pub cloud: i32,
    pub condition: Condition,
}

/// One response, constructed fresh per request and consumed by the formatter.
pub struct WeatherResponse {
    pub location: Location,
    pub current: Current,
}

/// Why a fetch-and-render cycle produced no report.
pub enum FetchError {
    /// Connection, DNS or timeout failure: no response arrived.
    Network,
    /// The endpoint answered with a non-success HTTP status.
    Protocol,
    /// The response body does not match the expected shape.
    Decode,
}

/// The report text for a response: a location line with the glyph, the
/// condition text, temperature with feels-like, wind, pressure,
/// precipitation, humidity and cloud cover, one datum per line.
pub open spec fn spec_report(w: WeatherResponse) -> Seq<char> {
    spec_weather_emoji(w.current.condition.code) + " "@ + w.location.name@ + ", "@
        + w.location.country@ + "\n"@ + w.current.condition.text@ + "\n"@ + w.current.temp_c@
        + "°C (Feels like: "@ + w.current.feelslike_c@ + "°C)\nWind: "@ + w.current.wind_kph@
        + " kph, "@ + w.current.wind_dir@ + "\nPressure: "@ + w.current.pressure_mb@
        + " mb\nPrecipitation: "@ + w.current.precip_mm@ + " mm\nHumidity: "@ + spec_decimal(
        w.current.humidity as int,
    ) + "%\nCloud Cover: "@ + spec_decimal(w.current.cloud as int) + "%"@
}

/// The one message shown for every failure, whatever its cause.
pub open spec fn spec_fallback() -> Seq<char> {
    "Failed to fetch weather data."@
}

/// What the display region shows for the outcome of a cycle: the report on
/// success, the fallback message on any failure.
pub open spec fn spec_render(outcome: Result<WeatherResponse, FetchError>) -> Seq<char> {
    match outcome {
        Ok(w) => spec_report(w),
        Err(_) => spec_fallback(),
    }
}

/// Lay a response out as the multi-line report. Pure: the text is a function
/// of the response value alone, so repeated calls on one value are
/// byte-identical.
pub fn format_weather_report(w: &WeatherResponse) -> (r: String)
    ensures
        r@ == spec_report(*w),
{
    let mut s = String::from_str(get_weather_emoji(w.current.condition.code));
    s.append(" ");
    s.append(w.location.name.as_str());
    s.append(", ");
    s.append(w.location.country.as_str());
    s.append("\n");
    s.append(w.current.condition.text.as_str());
    s.append("\n");
    s.append(w.current.temp_c.as_str());
    s.append("°C (Feels like: ");
    s.append(w.current.feelslike_c.as_str());
    s.append("°C)\nWind: ");
    s.append(w.current.wind_kph.as_str());
    s.append(" kph, ");
    s.append(w.current.wind_dir.as_str());
    s.append("\nPressure: ");
    s.append(w.current.pressure_mb.as_str());
    s.append(" mb\nPrecipitation: ");
    s.append(w.current.precip_mm.as_str());
    s.append(" mm\nHumidity: ");
    s.append(i32_to_decimal(w.current.humidity).as_str());
    s.append("%\nCloud Cover: ");
    s.append(i32_to_decimal(w.current.cloud).as_str());
    s.append("%");
    proof {
        assert(s@ =~= spec_report(*w));
    }
    s
}

/// Render the outcome of a cycle: the report for a response, the fallback
/// message for every error.
pub fn render_outcome(outcome: Result<WeatherResponse, FetchError>) -> (r: String)
    ensures
        r@ == spec_render(outcome),
{
    match outcome {
        Ok(w) => format_weather_report(&w),
        Err(_) => String::from_str("Failed to fetch weather data."),
    }
}

/// Every failure is shown as the same fallback message: no cause is
/// distinguished at the user-visible layer.
pub proof fn lemma_failures_collapse(e1: FetchError, e2: FetchError)
    ensures
        spec_render(Result::<WeatherResponse, FetchError>::Err(e1)) == spec_render(
            Result::<WeatherResponse, FetchError>::Err(e2),
        ),
        spec_render(Result::<WeatherResponse, FetchError>::Err(e1)) == spec_fallback(),
{
}

/// A body that fails to decode is shown exactly as a network failure.
pub proof fn lemma_decode_like_network()
    ensures
        spec_render(Result::<WeatherResponse, FetchError>::Err(FetchError::Decode)) == spec_render(
            Result::<WeatherResponse, FetchError>::Err(FetchError::Network),
        ),
{
}

} // verus!
