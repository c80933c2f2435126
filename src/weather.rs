use vstd::prelude::*;

use crate::doc::{member, number_member, Doc};
use crate::envelope::{check_provider_error, provider_failure};
use crate::error::{Failure, WeatherResultError};
use crate::unit::WeatherUnit;

verus! {

/// A current-weather reading. Each measurement is held as the shortest
/// decimal rendering of its double-precision value; humidity is a percentage.
#[derive(Debug, Clone)]
pub struct WeatherResult {
    pub temp: String,
    pub temp_feels_like: String,
    pub temp_min: String,
    pub temp_max: String,
    pub pressure: String,
    pub humidity: String,
    pub unit: WeatherUnit,
}

/// The mathematical content of a [`WeatherResult`].
pub struct Reading {
    pub temp: Seq<char>,
    pub feels_like: Seq<char>,
    pub temp_min: Seq<char>,
    pub temp_max: Seq<char>,
    pub pressure: Seq<char>,
    pub humidity: Seq<char>,
    pub unit: WeatherUnit,
}

impl View for WeatherResult {
    type V = Reading;

    open spec fn view(&self) -> Reading {
        Reading {
            temp: self.temp@,
            feels_like: self.temp_feels_like@,
            temp_min: self.temp_min@,
            temp_max: self.temp_max@,
            pressure: self.pressure@,
            humidity: self.humidity@,
            unit: self.unit,
        }
    }
}

/// What a weather response says, apart from an error envelope: the six
/// measurements of its `main` object, tagged with the unit they were asked in.
pub open spec fn reading_of(d: Doc, unit: WeatherUnit) -> Result<Reading, Failure> {
    match d {
        Doc::Object(_) => match member(d, "main"@) {
            Some(m) => match m {
                Doc::Object(_) => match (
                    number_member(m, "temp"@),
                    number_member(m, "feels_like"@),
                    number_member(m, "temp_min"@),
                    number_member(m, "temp_max"@),
                    number_member(m, "pressure"@),
                    number_member(m, "humidity"@),
                ) {
                    (Some(t), Some(f), Some(lo), Some(hi), Some(p), Some(h)) => Ok(
                        Reading {
                            temp: t,
                            feels_like: f,
                            temp_min: lo,
                            temp_max: hi,
                            pressure: p,
                            humidity: h,
                            unit,
                        },
                    ),
                    _ => Err(Failure::MissingFields),
                },
                _ => Err(Failure::NoResult),
            },
            None => Err(Failure::NoResult),
        },
        _ => Err(Failure::NoResult),
    }
}

/// What a weather response yields: the provider's error, if it sent one,
/// else [`reading_of`].
pub open spec fn fetched(d: Doc, unit: WeatherUnit) -> Result<Reading, Failure> {
    match provider_failure(d) {
        Some(f) => Err(f),
        None => reading_of(d, unit),
    }
}

/// The report printed for a reading.
pub open spec fn report_of(r: Reading) -> Seq<char> {
    let t = r.unit.temp_symbol();
    let p = r.unit.pressure_symbol();
    "\nWeather report for today:\n  Temperature: "@ + r.temp + " "@ + t + "  Feels like: "@
        + r.feels_like + " "@ + t + "\n  Min: "@ + r.temp_min + " "@ + t + "  Max: "@
        + r.temp_max + " "@ + t + "\n  Pressure: "@ + r.pressure + " "@ + p + "  Humidity: "@
        + r.humidity + "%\n  All units are in the "@ + r.unit.param_spec() + " system"@
}

/// The decimal text of the number under `key` in `d`.
fn number_field(d: &Doc, key: &str) -> (r: Option<String>)
    ensures
        r matches Some(s) ==> number_member(*d, key@) == Some(s@),
        r is None <==> number_member(*d, key@) is None,
{
    match d.get(key) {
        Some(v) => match v.as_number_text() {
            Some(s) => Some(s.clone()),
            None => None,
        },
        None => None,
    }
}

/// Reads a reading out of a weather response (one with no error envelope:
/// see [`weather_reply`]). The unit is the one the request was made in,
/// whatever the body says.
pub fn parse_weather(d: &Doc, unit: &WeatherUnit) -> (r: Result<WeatherResult, WeatherResultError>)
    ensures
        match r {
            Ok(w) => reading_of(*d, *unit) == Ok::<Reading, Failure>(w@),
            Err(e) => reading_of(*d, *unit) == Err::<Reading, Failure>(e@),
        },
{
    match d {
        Doc::Object(_) => {},
        _ => return Err(WeatherResultError::NoResult),
    }
    let main = match d.get("main") {
        Some(m) => m,
        None => return Err(WeatherResultError::NoResult),
    };
    match main {
        Doc::Object(_) => {},
        _ => return Err(WeatherResultError::NoResult),
    }
    let temp = number_field(main, "temp");
    let feels_like = number_field(main, "feels_like");
    let temp_min = number_field(main, "temp_min");
    let temp_max = number_field(main, "temp_max");
    let pressure = number_field(main, "pressure");
    let humidity = number_field(main, "humidity");
    match (temp, feels_like, temp_min, temp_max, pressure, humidity) {
        (Some(t), Some(f), Some(lo), Some(hi), Some(p), Some(h)) => Ok(
            WeatherResult {
                temp: t,
                temp_feels_like: f,
                temp_min: lo,
                temp_max: hi,
                pressure: p,
                humidity: h,
                unit: *unit,
            },
        ),
        _ => Err(WeatherResultError::MissingFields),
    }
}

/// Turns a weather response into a reading: the provider's error when the
/// response is an error envelope, else what [`parse_weather`] reads.
pub fn weather_reply(d: &Doc, unit: &WeatherUnit) -> (r: Result<WeatherResult, WeatherResultError>)
    ensures
        match r {
            Ok(w) => fetched(*d, *unit) == Ok::<Reading, Failure>(w@),
            Err(e) => fetched(*d, *unit) == Err::<Reading, Failure>(e@),
        },
{
    match check_provider_error(d) {
        Err(e) => Err(e),
        Ok(()) => parse_weather(d, unit),
    }
}

impl WeatherResult {
    /// Renders the reading with the unit's temperature and pressure symbols
    /// and a closing line naming the unit system.
    pub fn generate_weather_report(&self) -> (r: String)
        ensures
            r@ == report_of(self@),
    {
        let t = self.unit.to_temp_unit();
        let p = self.unit.to_pressure_unit();
        let mut r = String::from_str("\nWeather report for today:\n  Temperature: ");
        r.append(self.temp.as_str());
        r.append(" ");
        r.append(t);
        r.append("  Feels like: ");
        r.append(self.temp_feels_like.as_str());
        r.append(" ");
        r.append(t);
        r.append("\n  Min: ");
        r.append(self.temp_min.as_str());
        r.append(" ");
        r.append(t);
        r.append("  Max: ");
        r.append(self.temp_max.as_str());
        r.append(" ");
        r.append(t);
        r.append("\n  Pressure: ");
        r.append(self.pressure.as_str());
        r.append(" ");
        r.append(p);
        r.append("  Humidity: ");
        r.append(self.humidity.as_str());
        r.append("%\n  All units are in the ");
        let system = self.unit.to_param();
        r.append(system.as_str());
        r.append(" system");
        r
    }
}

/// A weather response with a `main` object holding the six numeric fields,
/// and no error envelope, yields exactly those numbers in the unit that was
/// asked for, whatever else the body says.
pub proof fn lemma_main_object_reads(d: Doc, unit: WeatherUnit)
    requires
        d is Object,
        provider_failure(d) is None,
        member(d, "main"@) matches Some(m) && m is Object
            && number_member(m, "temp"@) is Some && number_member(m, "feels_like"@) is Some
            && number_member(m, "temp_min"@) is Some && number_member(m, "temp_max"@) is Some
            && number_member(m, "pressure"@) is Some && number_member(m, "humidity"@) is Some,
    ensures
        ({
            let m = member(d, "main"@)->0;
            fetched(d, unit) == Ok::<Reading, Failure>(
                Reading {
                    temp: number_member(m, "temp"@)->0,
                    feels_like: number_member(m, "feels_like"@)->0,
                    temp_min: number_member(m, "temp_min"@)->0,
                    temp_max: number_member(m, "temp_max"@)->0,
                    pressure: number_member(m, "pressure"@)->0,
                    humidity: number_member(m, "humidity"@)->0,
                    unit,
                },
            )
        }),
{
}

} // verus!
