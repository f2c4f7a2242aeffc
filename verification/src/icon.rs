//! Condition-code classifier: maps a provider-defined integer weather
//! condition code to a fixed display glyph. Total and deterministic; every
//! code outside the known vocabulary maps to the default glyph.
use vstd::prelude::*;

verus! {

/// The glyph for each known condition code, and the default glyph for every
/// other code. This table is the documented mapping; the executable
/// classifier returns exactly this.
pub open spec fn spec_weather_emoji(code: i32) -> Seq<char> {
    if code == 1000 {
        "☀️"@
    } else if code == 1003 {
        "🌤️"@
    } else if code == 1006 || code == 1009 {
        "☁️"@
    } else if code == 1030 || code == 1135 || code == 1147 {
        "🌫️"@
    } else if code == 1063 || code == 1150 || code == 1180 || code == 1240 || code == 1195
        || code == 1243 || code == 1273 {
        "🌧️"@
    } else if code == 1183 || code == 1186 || code == 1192 {
        "🌦️"@
    } else if code == 1087 || code == 1276 {
        "🌩️"@
    } else if code == 1066 || code == 1114 || code == 1210 || code == 1213 || code == 1255
        || code == 1117 || code == 1225 || code == 1258 {
        "❄️"@
    } else if code == 1069 || code == 1204 || code == 1249 {
        "🌨️"@
    } else if code == 1198 || code == 1237 || code == 1261 {
        "🧊"@
    } else {
        default_icon()
    }
}

/// The glyph shown for a code outside the known vocabulary.
pub open spec fn default_icon() -> Seq<char> {
    "🌍"@
}

/// Whether a condition code belongs to the known vocabulary, i.e. has a
/// dedicated glyph rather than the default one.
pub open spec fn known_condition_code(code: i32) -> bool {
    code == 1000 || code == 1003 || code == 1006 || code == 1009 || code == 1030 || code == 1135
        || code == 1147 || code == 1063 || code == 1150 || code == 1180 || code == 1240
        || code == 1195 || code == 1243 || code == 1273 || code == 1183 || code == 1186
        || code == 1192 || code == 1087 || code == 1276 || code == 1066 || code == 1114
        || code == 1210 || code == 1213 || code == 1255 || code == 1117 || code == 1225
        || code == 1258 || code == 1069 || code == 1204 || code == 1249 || code == 1198
        || code == 1237 || code == 1261
}

/// Classify a condition code as its display glyph.
pub fn get_weather_emoji(condition_code: i32) -> (r: &'static str)
    ensures
        r@ == spec_weather_emoji(condition_code),
{
    match condition_code {
        1000 => "☀️",  // Sunny / Clear
        1003 => "🌤️",  // Partly cloudy
        1006 | 1009 => "☁️",  // Cloudy
        1030 | 1135 | 1147 => "🌫️",  // Mist / Fog
        1063 | 1150 | 1180 | 1240 | 1195 | 1243 | 1273 => "🌧️",  // Rain
        1183 | 1186 | 1192 => "🌦️",  // Rain
        1087 | 1276 => "🌩️",  // Thunderstorm
        1066 | 1114 | 1210 | 1213 | 1255 | 1117 | 1225 | 1258 => "❄️",  // Snow
        1069 | 1204 | 1249 => "🌨️",  // Sleet
        1198 | 1237 | 1261 => "🧊",  // Freezing rain / Ice
        _ => "🌍",  // Default icon for unknown weather
    }
}

/// Every code outside the known vocabulary is shown as the default glyph.
pub proof fn lemma_unknown_code_gives_default(code: i32)
    requires
        !known_condition_code(code),
    ensures
        spec_weather_emoji(code) == default_icon(),
{
}

} // verus!
