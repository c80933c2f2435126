use vstd::prelude::*;

use crate::text::{decimal, int_text};
use crate::unit::{options_spec, WeatherUnit};

verus! {

/// Why a lookup failed. Every kind is final: nothing is retried.
#[derive(Debug, Clone, PartialEq, Eq)]
pub enum WeatherResultError {
    /// The request could not be made or its body could not be decoded; holds
    /// the transport's own description of the cause.
    RequestError { cause: String },
    /// The provider answered with an error code and a message.
    APIError { code: i64, message: String },
    /// The response did not have the outer shape the operation expects.
    NoResult,
    /// The response had the right shape but lacked a required value.
    MissingFields,
    /// A unit selector that is none of the recognised tokens.
    InvalidWeatherUnit { given: String },
}

/// The mathematical content of a [`WeatherResultError`].
pub enum Failure {
    Request(Seq<char>),
    Provider(i64, Seq<char>),
    NoResult,
    MissingFields,
    InvalidUnit(Seq<char>),
}

impl View for WeatherResultError {
    type V = Failure;

    open spec fn view(&self) -> Failure {
        match self {
            WeatherResultError::RequestError { cause } => Failure::Request(cause@),
            WeatherResultError::APIError { code, message } => Failure::Provider(*code, message@),
            WeatherResultError::NoResult => Failure::NoResult,
            WeatherResultError::MissingFields => Failure::MissingFields,
            WeatherResultError::InvalidWeatherUnit { given } => Failure::InvalidUnit(given@),
        }
    }
}

/// The text shown to a user for a failure.
pub open spec fn failure_text(f: Failure) -> Seq<char> {
    match f {
        Failure::Request(cause) => "Something went wrong getting the request: "@ + cause,
        Failure::Provider(code, message) => "API returned error code "@ + decimal(code as int)
            + ": "@ + message,
        Failure::NoResult => "No result was found"@,
        Failure::MissingFields => "Required fields were missing"@,
        Failure::InvalidUnit(given) => "`"@ + given + "`. Possible values: "@ + options_spec(),
    }
}

impl WeatherResultError {
    /// The text shown to a user for this failure.
    pub fn message(&self) -> (r: String)
        ensures
            r@ == failure_text(self@),
    {
        match self {
            WeatherResultError::RequestError { cause } => {
                let mut r = String::from_str("Something went wrong getting the request: ");
                r.append(cause.as_str());
                r
            },
            WeatherResultError::APIError { code, message } => {
                let mut r = String::from_str("API returned error code ");
                let digits = int_text(*code);
                r.append(digits.as_str());
                r.append(": ");
                r.append(message.as_str());
                r
            },
            WeatherResultError::NoResult => String::from_str("No result was found"),
            WeatherResultError::MissingFields => String::from_str("Required fields were missing"),
            WeatherResultError::InvalidWeatherUnit { given } => {
                let mut r = String::from_str("`");
                r.append(given.as_str());
                r.append("`. Possible values: ");
                r.append(WeatherUnit::get_options());
                r
            },
        }
    }
}

} // verus!
