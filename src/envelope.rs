use vstd::prelude::*;

use crate::doc::{int_of, member, str_of, Doc};
use crate::error::{Failure, WeatherResultError};
use crate::location::resolved;
use crate::unit::WeatherUnit;
use crate::weather::{fetched, Reading};

verus! {

/// The message that stands in for one the provider left out.
pub open spec fn fallback_message(code: i64) -> Seq<char> {
    if code == 404 {
        "Result not found"@
    } else {
        "Unknown error"@
    }
}

/// The failure a response reports about itself, if it is an error envelope:
/// an object whose `cod` is an integer and whose `message` is a string, or an
/// object whose `cod` is an integer of at least 400 and that has no `message`.
pub open spec fn provider_failure(d: Doc) -> Option<Failure> {
    match member(d, "cod"@) {
        Some(c) => match int_of(c) {
            Some(code) => match member(d, "message"@) {
                Some(m) => match str_of(m) {
                    Some(msg) => Some(Failure::Provider(code, msg)),
                    None => None,
                },
                None => if code >= 400 {
                    Some(Failure::Provider(code, fallback_message(code)))
                } else {
                    None
                },
            },
            None => None,
        },
        None => None,
    }
}

/// Fails with the provider's own error when the response is an error
/// envelope; passes any other response on.
pub fn check_provider_error(d: &Doc) -> (r: Result<(), WeatherResultError>)
    ensures
        r is Ok <==> provider_failure(*d) is None,
        r matches Err(e) ==> provider_failure(*d) == Some(e@),
{
    if let Some(c) = d.get("cod") {
        if let Some(code) = c.as_i64() {
            match d.get("message") {
                Some(m) => {
                    if let Some(msg) = m.as_str() {
                        return Err(WeatherResultError::APIError { code, message: msg.clone() });
                    }
                },
                None => {
                    if code >= 400 {
                        let message = if code == 404 {
                            String::from_str("Result not found")
                        } else {
                            String::from_str("Unknown error")
                        };
                        return Err(WeatherResultError::APIError { code, message });
                    }
                },
            }
        }
    }
    Ok(())
}

/// An object whose `cod` is an integer and whose `message` is a string is the
/// provider's error, for a geocoding and for a weather request alike, with
/// that exact code and message.
pub proof fn lemma_envelope_is_provider_error(d: Doc, unit: WeatherUnit)
    requires
        member(d, "cod"@) matches Some(c) && int_of(c) is Some,
        member(d, "message"@) matches Some(m) && str_of(m) is Some,
    ensures
        ({
            let f = Failure::Provider(
                int_of(member(d, "cod"@)->0)->0,
                str_of(member(d, "message"@)->0)->0,
            );
            &&& resolved(d) == Err::<(Seq<char>, Seq<char>), Failure>(f)
            &&& fetched(d, unit) == Err::<Reading, Failure>(f)
        }),
{
}

} // verus!
