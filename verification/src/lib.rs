use vstd::prelude::*;

pub mod config;
pub mod extract;
pub mod fetch;
pub mod monitor;
pub mod occupancy;
pub mod parse;
pub mod sink;

verus! {

/// The fixed page every poll cycle fetches.
pub fn occupancy_page_url() -> (r: &'static str)
    ensures
        r@ == "https://carolus-thermen.de/auslastung/"@,
{
    "https://carolus-thermen.de/auslastung/"
}

} // verus!
