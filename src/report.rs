//! The request and the provider's report, as plain values.
//!
//! Fractional quantities are integer counts of thousandths of their unit
//! (see `units`); coordinates are millionths of a degree.

use vstd::prelude::*;

verus! {

/// What the user asked for: a city and a country code, taken verbatim.
#[derive(Debug)]
pub struct Request {
    pub city: String,
    pub country_code: String,
}

impl Request {
    pub fn new(city: String, country_code: String) -> (r: Request)
        ensures
            r.city@ == city@,
            r.country_code@ == country_code@,
    {
        Request { city, country_code }
    }
}

/// Position of the location, in millionths of a degree.
#[derive(Clone, Copy, Debug, PartialEq, Eq)]
pub struct Coordinates {
    pub longitude: i64,
    pub latitude: i64,
}

/// The provider's classification of the current conditions.
#[derive(Debug)]
pub struct WeatherDetail {
    pub condition_id: i32,
    pub main_category: String,
    pub description: String,
    pub icon_id: String,
}

/// Temperatures in thousandths of a kelvin; pressure and humidity as given.
#[derive(Clone, Copy, Debug, PartialEq, Eq)]
pub struct Temperatures {
    pub current: i64,
    pub feels_like: i64,
    pub min: i64,
    pub max: i64,
    pub pressure: i32,
    pub humidity: i32,
}

/// Wind speed in thousandths of the provider's unit, direction in degrees.
#[derive(Clone, Copy, Debug, PartialEq, Eq)]
pub struct Wind {
    pub speed: i64,
    pub direction_degrees: i32,
}

/// Cloud coverage in percent.
#[derive(Clone, Copy, Debug, PartialEq, Eq)]
pub struct Clouds {
    pub coverage_percent: i32,
}

/// Station data; the type code in thousandths, times in unix seconds.
#[derive(Debug)]
pub struct System {
    pub type_code: i64,
    pub id: i32,
    pub country_code: String,
    pub sunrise: i32,
    pub sunset: i32,
}

/// One report of current weather for one location. Every field is
/// present: a response that lacks one yields no report at all.
#[derive(Debug)]
pub struct WeatherReport {
    pub coordinates: Coordinates,
    pub weather_detail: WeatherDetail,
    pub base_station: String,
    pub temperatures: Temperatures,
    pub visibility_meters: i32,
    pub wind: Wind,
    pub clouds: Clouds,
    pub timestamp: i32,
    pub system: System,
    pub timezone_offset_seconds: i32,
    pub location_id: i32,
    pub location_name: String,
}

} // verus!
