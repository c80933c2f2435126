use vstd::prelude::*;

use crate::doc::{member, number_member, Doc};
use crate::envelope::{check_provider_error, provider_failure};
use crate::error::{Failure, WeatherResultError};

verus! {

/// A place's coordinates, each held as the shortest decimal rendering of its
/// double-precision value.
#[derive(Debug, Clone)]
pub struct Location {
    pub lat: String,
    pub lon: String,
}

impl View for Location {
    type V = (Seq<char>, Seq<char>);

    open spec fn view(&self) -> (Seq<char>, Seq<char>) {
        (self.lat@, self.lon@)
    }
}

/// What a geocoding response says, apart from an error envelope: the
/// coordinates of its first element, when the response is an array whose
/// first element is an object with numeric `lat` and `lon`.
pub open spec fn location_of(d: Doc) -> Result<(Seq<char>, Seq<char>), Failure> {
    match d {
        Doc::Array(items) => if items@.len() == 0 {
            Err(Failure::NoResult)
        } else {
            match items@[0] {
                Doc::Object(_) => match (
                    number_member(items@[0], "lat"@),
                    number_member(items@[0], "lon"@),
                ) {
                    (Some(lat), Some(lon)) => Ok((lat, lon)),
                    _ => Err(Failure::MissingFields),
                },
                _ => Err(Failure::NoResult),
            }
        },
        _ => Err(Failure::NoResult),
    }
}

/// What a geocoding response resolves to: the provider's error, if it sent
/// one, else [`location_of`].
pub open spec fn resolved(d: Doc) -> Result<(Seq<char>, Seq<char>), Failure> {
    match provider_failure(d) {
        Some(f) => Err(f),
        None => location_of(d),
    }
}

impl Location {
    pub fn new(lat: String, lon: String) -> (r: Location)
        ensures
            r@ == (lat@, lon@),
    {
        Location { lat, lon }
    }

    /// The coordinates written as `(lat, lon)`.
    pub fn to_text(&self) -> (r: String)
        ensures
            r@ == "("@ + self.lat@ + ", "@ + self.lon@ + ")"@,
    {
        let mut r = String::from_str("(");
        r.append(self.lat.as_str());
        r.append(", ");
        r.append(self.lon.as_str());
        r.append(")");
        r
    }
}

/// Reads the coordinates out of a geocoding response (one with no error
/// envelope: see [`resolve_reply`]).
pub fn parse_location(d: &Doc) -> (r: Result<Location, WeatherResultError>)
    ensures
        match r {
            Ok(loc) => location_of(*d) == Ok::<(Seq<char>, Seq<char>), Failure>(loc@),
            Err(e) => location_of(*d) == Err::<(Seq<char>, Seq<char>), Failure>(e@),
        },
{
    let first = match d {
        Doc::Array(items) => {
            if items.len() == 0 {
                return Err(WeatherResultError::NoResult);
            }
            &items[0]
        },
        _ => return Err(WeatherResultError::NoResult),
    };
    match first {
        Doc::Object(_) => {},
        _ => return Err(WeatherResultError::NoResult),
    }
    let lat = match first.get("lat") {
        Some(v) => v.as_number_text(),
        None => None,
    };
    let lon = match first.get("lon") {
        Some(v) => v.as_number_text(),
        None => None,
    };
    match (lat, lon) {
        (Some(lat), Some(lon)) => Ok(Location::new(lat.clone(), lon.clone())),
        _ => Err(WeatherResultError::MissingFields),
    }
}

/// Turns a geocoding response into a location: the provider's error when the
/// response is an error envelope, else what [`parse_location`] reads.
pub fn resolve_reply(d: &Doc) -> (r: Result<Location, WeatherResultError>)
    ensures
        match r {
            Ok(loc) => resolved(*d) == Ok::<(Seq<char>, Seq<char>), Failure>(loc@),
            Err(e) => resolved(*d) == Err::<(Seq<char>, Seq<char>), Failure>(e@),
        },
{
    match check_provider_error(d) {
        Err(e) => Err(e),
        Ok(()) => parse_location(d),
    }
}

/// A geocoding response whose first element is an object with numeric `lat`
/// and `lon` resolves to exactly those two numbers.
pub proof fn lemma_first_result_resolves(d: Doc)
    requires
        d matches Doc::Array(items) && items@.len() > 0 && items@[0] is Object
            && number_member(items@[0], "lat"@) is Some && number_member(items@[0], "lon"@) is Some,
    ensures
        resolved(d) == Ok::<(Seq<char>, Seq<char>), Failure>(
            (number_member(d->Array_0@[0], "lat"@)->0, number_member(d->Array_0@[0], "lon"@)->0),
        ),
{
}

/// An empty geocoding response resolves to no result.
pub proof fn lemma_empty_response_has_no_result(d: Doc)
    requires
        d matches Doc::Array(items) && items@.len() == 0,
    ensures
        resolved(d) == Err::<(Seq<char>, Seq<char>), Failure>(Failure::NoResult),
{
}

/// A geocoding response whose first element is an object without `lat` or
/// without `lon` fails for missing fields.
pub proof fn lemma_missing_coordinate(d: Doc)
    requires
        d matches Doc::Array(items) && items@.len() > 0 && items@[0] is Object
            && (member(items@[0], "lat"@) is None || member(items@[0], "lon"@) is None),
    ensures
        resolved(d) == Err::<(Seq<char>, Seq<char>), Failure>(Failure::MissingFields),
{
}

} // verus!
