//! The printed summary of a report.

use vstd::prelude::*;
use crate::report::{Request, WeatherReport};
use crate::text::{int_text, push_int};
use crate::units::{
    celsius_of, kelvin_to_celsius, round_thousandths, round_thousandths_is_nearest,
    round_thousandths_spec,
};

verus! {

/// The four lines printed for a lookup, from the values they show.
pub open spec fn summary_text(
    city: Seq<char>,
    country_code: Seq<char>,
    celsius: int,
    feels_celsius: int,
    humidity: int,
    wind_speed: int,
) -> Seq<char> {
    "City: "@ + city + ", Country code: "@ + country_code
        + "\nTemperature: "@ + int_text(celsius) + "°C (feels like: "@ + int_text(feels_celsius) + "°C)\n"@
        + "Humidity: "@ + int_text(humidity) + "%\n"@
        + "Wind speed: "@ + int_text(wind_speed) + " km/h\n"@
}

/// Whole degrees Celsius shown as the current temperature.
pub open spec fn shown_temperature(report: WeatherReport) -> int {
    celsius_of(report.temperatures.current as int)
}

/// Whole degrees Celsius shown as the perceived temperature.
pub open spec fn shown_feels_like(report: WeatherReport) -> int {
    celsius_of(report.temperatures.feels_like as int)
}

/// Humidity shown, in percent.
pub open spec fn shown_humidity(report: WeatherReport) -> int {
    report.temperatures.humidity as int
}

/// Wind speed shown, in whole units of the provider.
pub open spec fn shown_wind_speed(report: WeatherReport) -> int {
    round_thousandths_spec(report.wind.speed as int)
}

/// The summary of `report` for `request`.
pub open spec fn report_text(request: Request, report: WeatherReport) -> Seq<char> {
    summary_text(
        request.city@,
        request.country_code@,
        shown_temperature(report),
        shown_feels_like(report),
        shown_humidity(report),
        shown_wind_speed(report),
    )
}

/// The temperature shown is the current temperature in Celsius rounded to
/// the nearest degree, halves away from zero: for K thousandths of a
/// kelvin, `round(K / 1000 - 273.15)`.
pub proof fn temperature_is_rounded_celsius(report: WeatherReport)
    ensures
        ({
            let c = shown_temperature(report);
            let d = report.temperatures.current - 273150;
            &&& d >= 0 ==> 1000 * c - 500 <= d < 1000 * c + 500
            &&& d < 0 ==> 1000 * c - 500 < d <= 1000 * c + 500
        }),
{
    round_thousandths_is_nearest(report.temperatures.current - 273150);
}

/// The perceived temperature is converted by the same rule as the current
/// one, from its own value alone: a report whose perceived temperature is
/// another report's current temperature shows the same figure for it.
pub proof fn feels_like_converted_as_current(a: WeatherReport, b: WeatherReport)
    requires
        a.temperatures.current == b.temperatures.feels_like,
    ensures
        shown_temperature(a) == shown_feels_like(b),
{
}

/// Humidity is shown as given; wind speed is only rounded to the nearest
/// whole unit, halves away from zero.
pub proof fn humidity_and_wind_passed_through(report: WeatherReport)
    ensures
        shown_humidity(report) == report.temperatures.humidity,
        ({
            let w = shown_wind_speed(report);
            let s = report.wind.speed as int;
            &&& s >= 0 ==> 1000 * w - 500 <= s < 1000 * w + 500
            &&& s < 0 ==> 1000 * w - 500 < s <= 1000 * w + 500
        }),
{
    round_thousandths_is_nearest(report.wind.speed as int);
}

/// The text printed for `report`, looked up for `request`.
pub fn summarize(request: &Request, report: &WeatherReport) -> (r: String)
    ensures
        r@ == report_text(*request, *report),
{
    let mut out = String::new();
    out.append("City: ");
    out.append(request.city.as_str());
    out.append(", Country code: ");
    out.append(request.country_code.as_str());
    out.append("\nTemperature: ");
    push_int(&mut out, kelvin_to_celsius(report.temperatures.current));
    out.append("°C (feels like: ");
    push_int(&mut out, kelvin_to_celsius(report.temperatures.feels_like));
    out.append("°C)\n");
    out.append("Humidity: ");
    push_int(&mut out, report.temperatures.humidity as i64);
    out.append("%\n");
    out.append("Wind speed: ");
    push_int(&mut out, round_thousandths(report.wind.speed));
    out.append(" km/h\n");
    assert(out@ =~= report_text(*request, *report));
    out
}

} // verus!
