use vstd::prelude::*;

use crate::doc::Doc;
use crate::error::{Failure, WeatherResultError};
use crate::location::{resolve_reply, resolved, Location};
use crate::unit::WeatherUnit;
use crate::weather::{fetched, weather_reply, Reading, WeatherResult};

verus! {

/// The geocoding request for a place name: at most one result.
pub open spec fn geocode_url(place: Seq<char>, key: Seq<char>) -> Seq<char> {
    "https://api.openweathermap.org/geo/1.0/direct?q="@ + place + "&limit=1&appid="@ + key
}

/// The current-weather request for a pair of coordinates in a unit system.
pub open spec fn weather_url(lat: Seq<char>, lon: Seq<char>, units: Seq<char>, key: Seq<char>) -> Seq<
    char,
> {
    "https://api.openweathermap.org/data/2.5/weather?lat="@ + lat + "&lon="@ + lon + "&units="@
        + units + "&appid="@ + key
}

/// What a geocoding reply comes to: the transport's failure, or what the
/// response resolves to.
pub open spec fn location_answer(reply: Result<Doc, WeatherResultError>) -> Result<
    (Seq<char>, Seq<char>),
    Failure,
> {
    match reply {
        Ok(d) => resolved(d),
        Err(e) => Err(e@),
    }
}

/// What a weather reply comes to: the transport's failure, or what the
/// response yields in `unit`.
pub open spec fn weather_answer(reply: Result<Doc, WeatherResultError>, unit: WeatherUnit) -> Result<
    Reading,
    Failure,
> {
    match reply {
        Ok(d) => fetched(d, unit),
        Err(e) => Err(e@),
    }
}

/// The credential and unit preference that requests are made with.
#[derive(Debug, Clone)]
pub struct Client {
    pub key: Option<String>,
    pub unit: Option<WeatherUnit>,
}

/// Where a lookup stands.
#[derive(Debug, Clone)]
pub enum Stage {
    /// Waiting for the geocoding reply; `then_fetch` when the weather at the
    /// place is wanted, not only its coordinates.
    Resolving { then_fetch: bool },
    /// Waiting for the weather reply for `location`.
    Fetching { location: Location },
    /// Finished.
    Done,
}

/// What the caller is to do next.
#[derive(Debug, Clone)]
pub enum Action {
    /// Perform a GET of `url` and hand the decoded body back.
    Get { url: String },
    /// The lookup ended with the place's coordinates.
    Located { location: Location },
    /// The lookup ended with a reading.
    Reported { weather: WeatherResult },
    /// The lookup ended with a failure.
    Failed { error: WeatherResultError },
}

impl Client {
    pub fn new() -> (r: Client)
        ensures
            r.key is None,
            r.unit is None,
    {
        Client { key: None, unit: None }
    }

    pub fn login(self, key: String) -> (r: Client)
        ensures
            r.key == Some(key),
            r.unit == self.unit,
    {
        Client { key: Some(key), unit: self.unit }
    }

    pub fn with_unit(self, unit: WeatherUnit) -> (r: Client)
        ensures
            r.key == self.key,
            r.unit == Some(unit),
    {
        Client { key: self.key, unit: Some(unit) }
    }

    /// The geocoding request for `place`.
    pub fn location_url(&self, place: &str) -> (r: String)
        requires
            self.key is Some,
        ensures
            r@ == geocode_url(place@, self.key->0@),
    {
        let key = match &self.key {
            Some(k) => k,
            None => { proof { assert(false); } return String::new(); },
        };
        let mut r = String::from_str("https://api.openweathermap.org/geo/1.0/direct?q=");
        r.append(place);
        r.append("&limit=1&appid=");
        r.append(key.as_str());
        r
    }

    /// The weather request for `location` in the configured unit.
    pub fn weather_url(&self, location: &Location) -> (r: String)
        requires
            self.key is Some,
            self.unit is Some,
        ensures
            r@ == weather_url(location.lat@, location.lon@, self.unit->0.param_spec(), self.key->0@),
    {
        let (key, unit) = match (&self.key, &self.unit) {
            (Some(k), Some(u)) => (k, u),
            _ => { proof { assert(false); } return String::new(); },
        };
        let mut r = String::from_str("https://api.openweathermap.org/data/2.5/weather?lat=");
        r.append(location.lat.as_str());
        r.append("&lon=");
        r.append(location.lon.as_str());
        r.append("&units=");
        let units = unit.to_param();
        r.append(units.as_str());
        r.append("&appid=");
        r.append(key.as_str());
        r
    }

    /// Starts looking up the coordinates of `place`.
    pub fn start_location(&self, place: &str) -> (r: (Stage, Action))
        requires
            self.key is Some,
        ensures
            r.0 == (Stage::Resolving { then_fetch: false }),
            r.1 matches Action::Get { url } && url@ == geocode_url(place@, self.key->0@),
    {
        (Stage::Resolving { then_fetch: false }, Action::Get { url: self.location_url(place) })
    }

    /// Starts looking up the weather at `place`: its coordinates first.
    pub fn start_weather(&self, place: &str) -> (r: (Stage, Action))
        requires
            self.key is Some,
            self.unit is Some,
        ensures
            r.0 == (Stage::Resolving { then_fetch: true }),
            r.1 matches Action::Get { url } && url@ == geocode_url(place@, self.key->0@),
    {
        (Stage::Resolving { then_fetch: true }, Action::Get { url: self.location_url(place) })
    }

    /// Takes the reply to the last `Get` (the decoded body, or the transport's
    /// failure) and says what comes next. A failed geocoding ends the lookup
    /// with that failure, unchanged, and no weather request is made.
    pub fn advance(&self, stage: Stage, reply: Result<Doc, WeatherResultError>) -> (r: (
        Stage,
        Action,
    ))
        requires
            self.key is Some,
            !(stage is Done),
            stage matches Stage::Resolving { then_fetch } ==> (then_fetch ==> self.unit is Some),
            stage is Fetching ==> self.unit is Some,
        ensures
            match stage {
                Stage::Resolving { then_fetch } => match location_answer(reply) {
                    Err(f) => r.0 is Done && (r.1 matches Action::Failed { error } && error@ == f),
                    Ok(c) => if then_fetch {
                        &&& r.0 matches Stage::Fetching { location } && location@ == c
                        &&& r.1 matches Action::Get { url } && url@ == weather_url(
                            c.0,
                            c.1,
                            self.unit->0.param_spec(),
                            self.key->0@,
                        )
                    } else {
                        r.0 is Done && (r.1 matches Action::Located { location } && location@ == c)
                    },
                },
                Stage::Fetching { location: _ } => r.0 is Done && match weather_answer(
                    reply,
                    self.unit->0,
                ) {
                    Err(f) => r.1 matches Action::Failed { error } && error@ == f,
                    Ok(w) => r.1 matches Action::Reported { weather } && weather@ == w,
                },
                Stage::Done => false,
            },
    {
        match stage {
            Stage::Resolving { then_fetch } => {
                let found = match reply {
                    Ok(d) => resolve_reply(&d),
                    Err(e) => Err(e),
                };
                match found {
                    Err(error) => (Stage::Done, Action::Failed { error }),
                    Ok(location) => {
                        if then_fetch {
                            let url = self.weather_url(&location);
                            (Stage::Fetching { location }, Action::Get { url })
                        } else {
                            (Stage::Done, Action::Located { location })
                        }
                    },
                }
            },
            Stage::Fetching { location: _ } => {
                let unit = match &self.unit {
                    Some(u) => u,
                    None => {
                        proof { assert(false); }
                        return (Stage::Done, Action::Failed { error: WeatherResultError::NoResult });
                    },
                };
                let found = match reply {
                    Ok(d) => weather_reply(&d, unit),
                    Err(e) => Err(e),
                };
                match found {
                    Err(error) => (Stage::Done, Action::Failed { error }),
                    Ok(weather) => (Stage::Done, Action::Reported { weather }),
                }
            },
            Stage::Done => {
                proof { assert(false); }
                (Stage::Done, Action::Failed { error: WeatherResultError::NoResult })
            },
        }
    }
}

} // verus!
