use vstd::prelude::*;

use crate::error::{Failure, WeatherResultError};

verus! {

/// The measurement system in which a reading is requested and displayed.
#[derive(Debug, Clone, Copy, PartialEq, Eq, Structural)]
pub enum WeatherUnit {
    Imperial,
    Metric,
}

/// The list of accepted unit selectors, as shown in an error message.
pub open spec fn options_spec() -> Seq<char> {
    "[`imperial`, `i`, `metric`, `m`]"@
}

/// The unit a selector names, or the selector itself when it names none.
pub open spec fn unit_from_spec(s: Seq<char>) -> Result<WeatherUnit, Seq<char>> {
    if s == "imperial"@ || s == "i"@ {
        Ok(WeatherUnit::Imperial)
    } else if s == "metric"@ || s == "m"@ {
        Ok(WeatherUnit::Metric)
    } else {
        Err(s)
    }
}

impl WeatherUnit {
    /// The token the provider expects in the `units` query parameter; it is
    /// also the long selector for the unit.
    pub open spec fn param_spec(self) -> Seq<char> {
        match self {
            WeatherUnit::Imperial => "imperial"@,
            WeatherUnit::Metric => "metric"@,
        }
    }

    /// The unit's name as displayed: "Imperial" or "Metric".
    pub open spec fn name_spec(self) -> Seq<char> {
        match self {
            WeatherUnit::Imperial => "Imperial"@,
            WeatherUnit::Metric => "Metric"@,
        }
    }

    /// The symbol written after a temperature.
    pub open spec fn temp_symbol(self) -> Seq<char> {
        match self {
            WeatherUnit::Imperial => "°F"@,
            WeatherUnit::Metric => "°C"@,
        }
    }

    /// The symbol written after a pressure.
    pub open spec fn pressure_symbol(self) -> Seq<char> {
        "hPa"@
    }

    pub fn to_param(&self) -> (r: String)
        ensures
            r@ == self.param_spec(),
    {
        match self {
            WeatherUnit::Imperial => String::from_str("imperial"),
            WeatherUnit::Metric => String::from_str("metric"),
        }
    }

    pub fn name(&self) -> (r: &'static str)
        ensures
            r@ == self.name_spec(),
    {
        match self {
            WeatherUnit::Imperial => "Imperial",
            WeatherUnit::Metric => "Metric",
        }
    }

    pub fn to_temp_unit(&self) -> (r: &'static str)
        ensures
            r@ == self.temp_symbol(),
    {
        match self {
            WeatherUnit::Imperial => "°F",
            WeatherUnit::Metric => "°C",
        }
    }

    pub fn to_pressure_unit(&self) -> (r: &'static str)
        ensures
            r@ == self.pressure_symbol(),
    {
        match self {
            WeatherUnit::Imperial => "hPa",
            WeatherUnit::Metric => "hPa",
        }
    }

    pub fn get_options() -> (r: &'static str)
        ensures
            r@ == options_spec(),
    {
        "[`imperial`, `i`, `metric`, `m`]"
    }

    /// Reads a unit selector: `imperial` or `i`, `metric` or `m`.
    pub fn parse(s: &str) -> (r: Result<WeatherUnit, WeatherResultError>)
        ensures
            r matches Ok(u) ==> unit_from_spec(s@) == Ok::<WeatherUnit, Seq<char>>(u),
            r matches Err(e) ==> unit_from_spec(s@) is Err && e@ == Failure::InvalidUnit(s@),
    {
        let given = String::from_str(s);
        if given == String::from_str("imperial") || given == String::from_str("i") {
            Ok(WeatherUnit::Imperial)
        } else if given == String::from_str("metric") || given == String::from_str("m") {
            Ok(WeatherUnit::Metric)
        } else {
            Err(WeatherResultError::InvalidWeatherUnit { given })
        }
    }
}

impl std::str::FromStr for WeatherUnit {
    type Err = WeatherResultError;

    fn from_str(s: &str) -> Result<WeatherUnit, WeatherResultError> {
        WeatherUnit::parse(s)
    }
}

/// Reading the selector a unit is requested with gives that unit back.
pub proof fn lemma_selector_round_trip(u: WeatherUnit)
    ensures
        unit_from_spec(u.param_spec()) == Ok::<WeatherUnit, Seq<char>>(u),
{
    reveal_strlit("imperial");
    reveal_strlit("metric");
    reveal_strlit("i");
    reveal_strlit("m");
    assert("metric"@.len() != "imperial"@.len());
    assert("metric"@.len() != "i"@.len());
}

/// Any selector other than `imperial`, `i`, `metric` and `m` is refused, and
/// the refusal carries the selector as given.
pub proof fn lemma_unknown_selector(s: Seq<char>)
    requires
        s != "imperial"@,
        s != "i"@,
        s != "metric"@,
        s != "m"@,
    ensures
        unit_from_spec(s) == Err::<WeatherUnit, Seq<char>>(s),
{
}

} // verus!
