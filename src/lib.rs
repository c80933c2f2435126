use vstd::prelude::*;

pub mod cli;
pub mod client;
pub mod doc;
pub mod envelope;
pub mod error;
pub mod location;
pub mod text;
pub mod unit;
pub mod weather;

verus! {

} // verus!
