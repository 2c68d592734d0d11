use weather::report::{
    Clouds, Coordinates, Request, System, Temperatures, WeatherDetail, WeatherReport, Wind,
};
use weather::summary::summarize;

fn report(current: i64, feels_like: i64, humidity: i32, wind_speed: i64) -> WeatherReport {
    WeatherReport {
        coordinates: Coordinates { longitude: -125700, latitude: 51508500 },
        weather_detail: WeatherDetail {
            condition_id: 803,
            main_category: "Clouds".to_string(),
            description: "broken clouds".to_string(),
            icon_id: "04d".to_string(),
        },
        base_station: "stations".to_string(),
        temperatures: Temperatures {
            current,
            feels_like,
            min: current - 1000,
            max: current + 1000,
            pressure: 1012,
            humidity,
        },
        visibility_meters: 10000,
        wind: Wind { speed: wind_speed, direction_degrees: 240 },
        clouds: Clouds { coverage_percent: 75 },
        timestamp: 1600000000,
        system: System {
            type_code: 1000,
            id: 1414,
            country_code: "GB".to_string(),
            sunrise: 1599975000,
            sunset: 1600020000,
        },
        timezone_offset_seconds: 3600,
        location_id: 2643743,
        location_name: "London".to_string(),
    }
}

fn london() -> Request {
    Request::new("London".to_string(), "GB".to_string())
}

fn lines(text: &str) -> Vec<String> {
    text.lines().map(|l| l.to_string()).collect()
}

#[test]
fn london_fixture_prints_exact_summary() {
    let text = summarize(&london(), &report(282000, 280500, 76, 5400));
    assert_eq!(
        text,
        "City: London, Country code: GB\nTemperature: 9°C (feels like: 7°C)\nHumidity: 76%\nWind speed: 5 km/h\n"
    );
}

#[test]
fn kelvin_300_15_prints_27_celsius() {
    let text = summarize(&london(), &report(300150, 300150, 50, 0));
    assert_eq!(lines(&text)[1], "Temperature: 27°C (feels like: 27°C)");
}

#[test]
fn kelvin_273_15_prints_0_celsius() {
    let text = summarize(&london(), &report(273150, 273150, 50, 0));
    assert_eq!(lines(&text)[1], "Temperature: 0°C (feels like: 0°C)");
}

#[test]
fn slightly_below_freezing_prints_plain_zero() {
    let text = summarize(&london(), &report(272800, 272800, 50, 0));
    assert_eq!(lines(&text)[1], "Temperature: 0°C (feels like: 0°C)");
}

#[test]
fn below_freezing_prints_negative_celsius() {
    let text = summarize(&london(), &report(263150, 250000, 50, 0));
    assert_eq!(lines(&text)[1], "Temperature: -10°C (feels like: -23°C)");
}

#[test]
fn feels_like_rounds_independently_by_same_rule() {
    let a = summarize(&london(), &report(282000, 300150, 50, 0));
    let b = summarize(&london(), &report(300150, 282000, 50, 0));
    assert_eq!(lines(&a)[1], "Temperature: 9°C (feels like: 27°C)");
    assert_eq!(lines(&b)[1], "Temperature: 27°C (feels like: 9°C)");
}

#[test]
fn wind_speed_is_rounded_humidity_verbatim() {
    let text = summarize(&london(), &report(282000, 282000, 55, 3700));
    assert_eq!(lines(&text)[2], "Humidity: 55%");
    assert_eq!(lines(&text)[3], "Wind speed: 4 km/h");
}

#[test]
fn wind_speed_half_rounds_up() {
    let text = summarize(&london(), &report(282000, 282000, 0, 2500));
    assert_eq!(lines(&text)[3], "Wind speed: 3 km/h");
}

#[test]
fn empty_city_and_country_are_printed_verbatim() {
    let req = Request::new(String::new(), String::new());
    let text = summarize(&req, &report(282000, 282000, 0, 0));
    assert_eq!(lines(&text)[0], "City: , Country code: ");
}
