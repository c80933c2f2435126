use vstd::prelude::*;

use crate::client::{geocode_url, Action, Client, Stage};
use crate::unit::WeatherUnit;

verus! {

/// Gets the geo-location of a place name.
#[derive(Debug, Clone)]
pub struct LocationCommand {
    pub location: String,
}

/// Gets the weather at a place name.
#[derive(Debug, Clone)]
pub struct WeatherCommand {
    pub location: String,
    pub unit: WeatherUnit,
}

/// The two lookups the command line offers.
#[derive(Debug, Clone)]
pub enum Subcommand {
    Weather(WeatherCommand),
    Location(LocationCommand),
}

/// A parsed command line: the credential, verbosity, and the lookup to make.
#[derive(Debug, Clone)]
pub struct Command {
    pub key: String,
    pub verbose: bool,
    pub subcommand: Subcommand,
}

/// The single-command form of the command line: weather at a place, whose
/// name has had its commas removed.
#[derive(Debug, Clone)]
pub struct Args {
    pub location: String,
    pub unit: WeatherUnit,
    pub verbose: bool,
    pub key: String,
}

impl Command {
    /// The client to use and the first step of the lookup the command asks
    /// for: a weather lookup carries the command's unit, a location lookup
    /// carries none.
    pub fn run(&self) -> (r: (Client, Stage, Action))
        ensures
            r.0.key matches Some(k) && k@ == self.key@,
            match self.subcommand {
                Subcommand::Weather(w) => {
                    &&& r.0.unit == Some(w.unit)
                    &&& r.1 == (Stage::Resolving { then_fetch: true })
                    &&& r.2 matches Action::Get { url } && url@ == geocode_url(w.location@, self.key@)
                },
                Subcommand::Location(l) => {
                    &&& r.0.unit is None
                    &&& r.1 == (Stage::Resolving { then_fetch: false })
                    &&& r.2 matches Action::Get { url } && url@ == geocode_url(l.location@, self.key@)
                },
            },
    {
        match &self.subcommand {
            Subcommand::Weather(w) => {
                let client = Client::new().with_unit(w.unit).login(self.key.clone());
                let (stage, action) = client.start_weather(w.location.as_str());
                (client, stage, action)
            },
            Subcommand::Location(l) => {
                let client = Client::new().login(self.key.clone());
                let (stage, action) = client.start_location(l.location.as_str());
                (client, stage, action)
            },
        }
    }
}

/// The client and the first step of a weather lookup for `args`.
pub fn run(args: &Args) -> (r: (Client, Stage, Action))
    ensures
        r.0.key matches Some(k) && k@ == args.key@,
        r.0.unit == Some(args.unit),
        r.1 == (Stage::Resolving { then_fetch: true }),
        r.2 matches Action::Get { url } && url@ == geocode_url(args.location@, args.key@),
{
    let client = Client::new().with_unit(args.unit).login(args.key.clone());
    let (stage, action) = client.start_weather(args.location.as_str());
    (client, stage, action)
}

} // verus!
