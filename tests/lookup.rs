use rust_weather::cli::{run, Args, Command, LocationCommand, Subcommand, WeatherCommand};
use rust_weather::client::{Action, Client, Stage};
use rust_weather::doc::{Doc, Member, Num};
use rust_weather::envelope::check_provider_error;
use rust_weather::error::WeatherResultError;
use rust_weather::location::{parse_location, resolve_reply, Location};
use rust_weather::text::strip_commas;
use rust_weather::unit::WeatherUnit;
use rust_weather::weather::{parse_weather, weather_reply, WeatherResult};

fn integer(i: i64) -> Doc {
    Doc::Number(Num { int: Some(i), text: i.to_string() })
}

fn decimal_number(text: &str) -> Doc {
    Doc::Number(Num { int: None, text: text.to_string() })
}

fn string(s: &str) -> Doc {
    Doc::Str(s.to_string())
}

fn object(members: Vec<(&str, Doc)>) -> Doc {
    Doc::Object(
        members
            .into_iter()
            .map(|(k, v)| Member { key: k.to_string(), value: v })
            .collect(),
    )
}

fn geocode_london() -> Doc {
    Doc::Array(vec![object(vec![("lat", decimal_number("51.5")), ("lon", decimal_number("-0.12"))])])
}

fn main_object() -> Doc {
    object(vec![
        ("temp", decimal_number("15.2")),
        ("feels_like", decimal_number("14.8")),
        ("temp_min", decimal_number("13")),
        ("temp_max", decimal_number("17")),
        ("pressure", decimal_number("1012")),
        ("humidity", decimal_number("60")),
    ])
}

fn london_weather() -> Doc {
    object(vec![("main", main_object()), ("cod", integer(200))])
}

fn logged_in(unit: Option<WeatherUnit>) -> Client {
    let client = Client::new().login("abc".to_string());
    match unit {
        Some(u) => client.with_unit(u),
        None => client,
    }
}

#[test]
fn geocode_reads_first_coordinates() {
    let loc = resolve_reply(&geocode_london()).unwrap();
    assert_eq!(loc.lat, "51.5");
    assert_eq!(loc.lon, "-0.12");
}

#[test]
fn geocode_uses_only_first_element() {
    let d = Doc::Array(vec![
        object(vec![("lat", decimal_number("1.5")), ("lon", decimal_number("2.5"))]),
        object(vec![("lat", decimal_number("3")), ("lon", decimal_number("4"))]),
    ]);
    let loc = parse_location(&d).unwrap();
    assert_eq!((loc.lat.as_str(), loc.lon.as_str()), ("1.5", "2.5"));
}

#[test]
fn geocode_empty_array_has_no_result() {
    assert_eq!(resolve_reply(&Doc::Array(vec![])).unwrap_err(), WeatherResultError::NoResult);
}

#[test]
fn geocode_wrong_shapes_have_no_result() {
    assert_eq!(parse_location(&object(vec![])).unwrap_err(), WeatherResultError::NoResult);
    assert_eq!(parse_location(&Doc::Array(vec![integer(3)])).unwrap_err(), WeatherResultError::NoResult);
    assert_eq!(parse_location(&Doc::Null).unwrap_err(), WeatherResultError::NoResult);
}

#[test]
fn geocode_missing_coordinate_is_missing_fields() {
    let no_lon = Doc::Array(vec![object(vec![("lat", decimal_number("51.5"))])]);
    assert_eq!(resolve_reply(&no_lon).unwrap_err(), WeatherResultError::MissingFields);
    let no_lat = Doc::Array(vec![object(vec![("lon", decimal_number("51.5"))])]);
    assert_eq!(resolve_reply(&no_lat).unwrap_err(), WeatherResultError::MissingFields);
}

#[test]
fn geocode_non_numeric_coordinate_is_missing_fields() {
    let d = Doc::Array(vec![object(vec![("lat", string("north")), ("lon", decimal_number("1"))])]);
    assert_eq!(resolve_reply(&d).unwrap_err(), WeatherResultError::MissingFields);
}

#[test]
fn duplicate_key_reads_first_occurrence() {
    let d = Doc::Array(vec![object(vec![
        ("lat", decimal_number("1")),
        ("lat", decimal_number("2")),
        ("lon", decimal_number("3")),
    ])]);
    assert_eq!(resolve_reply(&d).unwrap().lat, "1");
}

#[test]
fn weather_reads_six_fields_in_requested_unit() {
    let d = object(vec![("main", main_object()), ("units", string("imperial"))]);
    let w = weather_reply(&d, &WeatherUnit::Metric).unwrap();
    assert_eq!(w.temp, "15.2");
    assert_eq!(w.temp_feels_like, "14.8");
    assert_eq!(w.temp_min, "13");
    assert_eq!(w.temp_max, "17");
    assert_eq!(w.pressure, "1012");
    assert_eq!(w.humidity, "60");
    assert_eq!(w.unit, WeatherUnit::Metric);
}

#[test]
fn weather_missing_leaf_is_missing_fields() {
    let d = object(vec![(
        "main",
        object(vec![
            ("temp", decimal_number("15.2")),
            ("feels_like", decimal_number("14.8")),
            ("temp_min", decimal_number("13")),
            ("temp_max", decimal_number("17")),
            ("pressure", decimal_number("1012")),
        ]),
    )]);
    assert_eq!(parse_weather(&d, &WeatherUnit::Imperial).unwrap_err(), WeatherResultError::MissingFields);
}

#[test]
fn weather_wrong_shapes_have_no_result() {
    assert_eq!(parse_weather(&Doc::Array(vec![]), &WeatherUnit::Metric).unwrap_err(), WeatherResultError::NoResult);
    assert_eq!(parse_weather(&object(vec![]), &WeatherUnit::Metric).unwrap_err(), WeatherResultError::NoResult);
    let d = object(vec![("main", integer(4))]);
    assert_eq!(parse_weather(&d, &WeatherUnit::Metric).unwrap_err(), WeatherResultError::NoResult);
}

#[test]
fn envelope_with_message_is_provider_error() {
    let d = object(vec![("cod", integer(401)), ("message", string("Invalid API key"))]);
    let expected = WeatherResultError::APIError { code: 401, message: "Invalid API key".to_string() };
    assert_eq!(resolve_reply(&d).unwrap_err(), expected);
    assert_eq!(weather_reply(&d, &WeatherUnit::Metric).unwrap_err(), expected);
}

#[test]
fn envelope_without_message_gets_fallback() {
    let d = object(vec![("cod", integer(404))]);
    assert_eq!(
        check_provider_error(&d).unwrap_err(),
        WeatherResultError::APIError { code: 404, message: "Result not found".to_string() }
    );
    let d = object(vec![("cod", integer(500))]);
    assert_eq!(
        check_provider_error(&d).unwrap_err(),
        WeatherResultError::APIError { code: 500, message: "Unknown error".to_string() }
    );
    let d = object(vec![("cod", integer(400))]);
    assert!(check_provider_error(&d).is_err());
}

#[test]
fn success_code_is_not_an_envelope() {
    assert!(check_provider_error(&london_weather()).is_ok());
    let w = weather_reply(&london_weather(), &WeatherUnit::Imperial).unwrap();
    assert_eq!(w.temp, "15.2");
    let d = object(vec![("cod", integer(399))]);
    assert!(check_provider_error(&d).is_ok());
}

#[test]
fn textual_code_is_not_an_envelope() {
    let d = object(vec![("cod", string("404")), ("message", string("city not found"))]);
    assert!(check_provider_error(&d).is_ok());
    assert_eq!(resolve_reply(&d).unwrap_err(), WeatherResultError::NoResult);
}

#[test]
fn unit_selector_round_trip() {
    for u in [WeatherUnit::Imperial, WeatherUnit::Metric] {
        assert_eq!(WeatherUnit::parse(&u.to_param()).unwrap(), u);
    }
    assert_eq!(WeatherUnit::parse("i").unwrap(), WeatherUnit::Imperial);
    assert_eq!(WeatherUnit::parse("m").unwrap(), WeatherUnit::Metric);
    assert_eq!("metric".parse::<WeatherUnit>().unwrap(), WeatherUnit::Metric);
}

#[test]
fn unknown_unit_selector_is_refused() {
    assert_eq!(
        WeatherUnit::parse("kelvin").unwrap_err(),
        WeatherResultError::InvalidWeatherUnit { given: "kelvin".to_string() }
    );
    assert!(WeatherUnit::parse("").is_err());
    assert!(WeatherUnit::parse("Metric").is_err());
}

#[test]
fn unit_symbols() {
    assert_eq!(WeatherUnit::Imperial.to_temp_unit(), "°F");
    assert_eq!(WeatherUnit::Metric.to_temp_unit(), "°C");
    assert_eq!(WeatherUnit::Metric.to_pressure_unit(), "hPa");
    assert_eq!(WeatherUnit::Imperial.to_param(), "imperial");
    assert_eq!(WeatherUnit::Metric.name(), "Metric");
    assert_eq!(WeatherUnit::get_options(), "[`imperial`, `i`, `metric`, `m`]");
}

#[test]
fn error_messages() {
    let e = WeatherResultError::APIError { code: 401, message: "Invalid API key".to_string() };
    assert_eq!(e.message(), "API returned error code 401: Invalid API key");
    let e = WeatherResultError::APIError { code: -7, message: "odd".to_string() };
    assert_eq!(e.message(), "API returned error code -7: odd");
    assert_eq!(WeatherResultError::NoResult.message(), "No result was found");
    assert_eq!(WeatherResultError::MissingFields.message(), "Required fields were missing");
    let e = WeatherResultError::InvalidWeatherUnit { given: "kelvin".to_string() };
    assert_eq!(e.message(), "`kelvin`. Possible values: [`imperial`, `i`, `metric`, `m`]");
    let e = WeatherResultError::RequestError { cause: "timed out".to_string() };
    assert_eq!(e.message(), "Something went wrong getting the request: timed out");
}

#[test]
fn request_urls() {
    let client = logged_in(Some(WeatherUnit::Metric));
    assert_eq!(
        client.location_url("London"),
        "https://api.openweathermap.org/geo/1.0/direct?q=London&limit=1&appid=abc"
    );
    let loc = Location::new("51.5".to_string(), "-0.12".to_string());
    assert_eq!(
        client.weather_url(&loc),
        "https://api.openweathermap.org/data/2.5/weather?lat=51.5&lon=-0.12&units=metric&appid=abc"
    );
    assert_eq!(loc.to_text(), "(51.5, -0.12)");
}

#[test]
fn report_in_imperial() {
    let w = WeatherResult {
        temp: "59.4".to_string(),
        temp_feels_like: "58".to_string(),
        temp_min: "55".to_string(),
        temp_max: "62.6".to_string(),
        pressure: "1012".to_string(),
        humidity: "60".to_string(),
        unit: WeatherUnit::Imperial,
    };
    assert_eq!(
        w.generate_weather_report(),
        "\nWeather report for today:\n  Temperature: 59.4 °F  Feels like: 58 °F\n  Min: 55 °F  Max: 62.6 °F\n  Pressure: 1012 hPa  Humidity: 60%\n  All units are in the imperial system"
    );
}

#[test]
fn end_to_end_metric_report() {
    let client = logged_in(Some(WeatherUnit::Metric));
    let (stage, action) = client.start_weather("London");
    assert!(matches!(action, Action::Get { .. }));
    let (stage, action) = client.advance(stage, Ok(geocode_london()));
    match &action {
        Action::Get { url } => assert_eq!(
            url,
            "https://api.openweathermap.org/data/2.5/weather?lat=51.5&lon=-0.12&units=metric&appid=abc"
        ),
        other => panic!("expected a weather request, got {:?}", other),
    }
    let (stage, action) = client.advance(stage, Ok(london_weather()));
    assert!(matches!(stage, Stage::Done));
    let report = match action {
        Action::Reported { weather } => weather.generate_weather_report(),
        other => panic!("expected a reading, got {:?}", other),
    };
    assert!(report.contains("Temperature: 15.2 °C"));
    assert!(report.contains("Humidity: 60%"));
    assert!(report.contains("metric system"));
}

#[test]
fn failed_resolve_stops_the_lookup() {
    let client = logged_in(Some(WeatherUnit::Metric));
    let (stage, _) = client.start_weather("Nowhere");
    let (stage, action) = client.advance(stage, Ok(Doc::Array(vec![])));
    assert!(matches!(stage, Stage::Done));
    match action {
        Action::Failed { error } => assert_eq!(error, WeatherResultError::NoResult),
        other => panic!("expected a failure, got {:?}", other),
    }
    let (stage, _) = client.start_weather("Nowhere");
    let cause = WeatherResultError::RequestError { cause: "connection refused".to_string() };
    let (stage, action) = client.advance(stage, Err(cause.clone()));
    assert!(matches!(stage, Stage::Done));
    match action {
        Action::Failed { error } => assert_eq!(error, cause),
        other => panic!("expected a failure, got {:?}", other),
    }
}

#[test]
fn failed_fetch_ends_with_its_error() {
    let client = logged_in(Some(WeatherUnit::Imperial));
    let (stage, _) = client.start_weather("London");
    let (stage, _) = client.advance(stage, Ok(geocode_london()));
    let d = object(vec![("cod", integer(401)), ("message", string("Invalid API key"))]);
    let (stage, action) = client.advance(stage, Ok(d));
    assert!(matches!(stage, Stage::Done));
    match action {
        Action::Failed { error } => assert_eq!(
            error,
            WeatherResultError::APIError { code: 401, message: "Invalid API key".to_string() }
        ),
        other => panic!("expected a failure, got {:?}", other),
    }
}

#[test]
fn location_lookup_ends_with_coordinates() {
    let client = logged_in(None);
    let (stage, action) = client.start_location("London");
    match &action {
        Action::Get { url } => assert_eq!(
            url,
            "https://api.openweathermap.org/geo/1.0/direct?q=London&limit=1&appid=abc"
        ),
        other => panic!("expected a geocoding request, got {:?}", other),
    }
    let (stage, action) = client.advance(stage, Ok(geocode_london()));
    assert!(matches!(stage, Stage::Done));
    match action {
        Action::Located { location } => assert_eq!(location.to_text(), "(51.5, -0.12)"),
        other => panic!("expected coordinates, got {:?}", other),
    }
}

#[test]
fn client_builder() {
    let c = Client::new();
    assert!(c.key.is_none() && c.unit.is_none());
    let c = c.with_unit(WeatherUnit::Metric).login("k".to_string());
    assert_eq!(c.key.as_deref(), Some("k"));
    assert_eq!(c.unit, Some(WeatherUnit::Metric));
}

#[test]
fn commands_plan_their_lookup() {
    let cmd = Command {
        key: "abc".to_string(),
        verbose: false,
        subcommand: Subcommand::Weather(WeatherCommand { location: "Paris".to_string(), unit: WeatherUnit::Metric }),
    };
    let (client, stage, action) = cmd.run();
    assert_eq!(client.unit, Some(WeatherUnit::Metric));
    assert!(matches!(stage, Stage::Resolving { then_fetch: true }));
    assert!(matches!(action, Action::Get { url } if url == "https://api.openweathermap.org/geo/1.0/direct?q=Paris&limit=1&appid=abc"));
    let cmd = Command {
        key: "abc".to_string(),
        verbose: true,
        subcommand: Subcommand::Location(LocationCommand { location: "Paris".to_string() }),
    };
    let (client, stage, _) = cmd.run();
    assert!(client.unit.is_none());
    assert!(matches!(stage, Stage::Resolving { then_fetch: false }));
    let args = Args { location: strip_commas("Paris, FR"), unit: WeatherUnit::Imperial, verbose: false, key: "abc".to_string() };
    let (client, _, action) = run(&args);
    assert_eq!(client.unit, Some(WeatherUnit::Imperial));
    assert!(matches!(action, Action::Get { url } if url == "https://api.openweathermap.org/geo/1.0/direct?q=Paris FR&limit=1&appid=abc"));
}

#[test]
fn commas_are_stripped() {
    assert_eq!(strip_commas("London, GB"), "London GB");
    assert_eq!(strip_commas(",,"), "");
    assert_eq!(strip_commas(""), "");
    assert_eq!(strip_commas("Zürich"), "Zürich");
}
