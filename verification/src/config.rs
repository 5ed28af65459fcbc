use vstd::prelude::*;

use crate::parse::{parse_bounded, spec_parse_bounded};

verus! {

/// The metrics listener's port when no override is configured.
pub const DEFAULT_PORT: u16 = 9000;

/// The polling interval, in seconds, when no override is configured.
pub const DEFAULT_INTERVAL_SECS: u64 = 300;

/// How a configured port override reads: `str::parse::<u16>` semantics —
/// an optional leading `+`, then digits denoting a value up to 65535.
/// Anything else is rejected, and an unparseable override is a fatal
/// startup error, never a fallback to the default.
pub open spec fn spec_parse_port(s: Seq<char>) -> Option<u16> {
    match spec_parse_bounded(s, 65535) {
        Some(v) => Some(v as u16),
        None => None,
    }
}

/// Reads a configured port override.
pub fn parse_port(s: &str) -> (r: Option<u16>)
    ensures
        r == spec_parse_port(s@),
{
    match parse_bounded(s, 65535) {
        Some(v) => Some(v as u16),
        None => None,
    }
}

/// How a configured interval override reads: `str::parse::<u64>` semantics,
/// the value counted in whole seconds.
pub open spec fn spec_parse_interval_secs(s: Seq<char>) -> Option<u64> {
    spec_parse_bounded(s, u64::MAX)
}

/// Reads a configured polling-interval override.
pub fn parse_interval_secs(s: &str) -> (r: Option<u64>)
    ensures
        r == spec_parse_interval_secs(s@),
{
    parse_bounded(s, u64::MAX)
}

} // verus!
