use vstd::prelude::*;
use vstd::string::StrSliceExecFns;

verus! {

/// The tick interval used when no configuration supplies one.
pub const DEFAULT_TICK_RATE_MS: u64 = 250;

/// The longest tick-rate string accepted, in characters. Every interval a
/// configuration would supply fits ("250ms", "1s 500ms", "1hour 30minutes");
/// the bound also keeps the duration parser away from the
/// `u64::MAX`-seconds edge where it can panic (see `parse_duration_ms`).
pub const MAX_TICK_RATE_STR_CHARS: usize = 20;

/// The one parameter the core takes from the outside: the interval of the
/// periodic tick, in whole milliseconds.
#[derive(Debug, Clone, Copy, PartialEq, Eq, Structural)]
pub struct Config {
    pub tick_rate_ms: u64,
}

impl Default for Config {
    /// The configuration used when none is loaded: a 250ms tick.
    fn default() -> (c: Config)
        ensures
            c.tick_rate_ms == DEFAULT_TICK_RATE_MS,
    {
        Config { tick_rate_ms: DEFAULT_TICK_RATE_MS }
    }
}

/// The number of whole milliseconds of the duration that
/// `humantime::parse_duration` reads out of `s`, or `None` where it rejects
/// `s`. The parse depends on the characters of `s` alone.
pub uninterp spec fn parsed_duration_millis(s: Seq<char>) -> Option<u128>;

/// Relies on `humantime::parse_duration`: parses a human-readable duration
/// (such as "250ms" or "1s 500ms") from the characters of `s` alone;
/// `Duration::as_millis` then gives the total number of whole milliseconds.
/// The parser reports malformed and overflowing input with an error through
/// checked arithmetic, with one exception: when the accumulated seconds
/// stand at exactly `u64::MAX` while the accumulated nanoseconds land on
/// exactly one second, it panics inside `Duration::new`. No admitted input
/// reaches that edge. To total exactly `u64::MAX` seconds, the bulk needs
/// a span of at least twelve digits — the cheapest is twelve digits of the
/// largest unit, the year (31,557,600 seconds), at 13 characters, since
/// eleven digits of years top out below 3.2e18, a sixth of `u64::MAX` —
/// plus at least one further span for the remainder, which is never zero:
/// every unit but the second is even while `u64::MAX` is odd. That is 15
/// characters at the least, and the exact one-second nanosecond total
/// costs at least six more ("1000ms"). A panicking input therefore needs
/// over 20 characters, and the length bound excludes it.
#[verifier::external_body]
fn parse_duration_ms(s: &str) -> (r: Option<u128>)
    requires
        s@.len() <= MAX_TICK_RATE_STR_CHARS,
    ensures
        r == parsed_duration_millis(s@),
{
    match humantime::parse_duration(s) {
        Ok(d) => Some(d.as_millis()),
        Err(_) => None,
    }
}

impl Config {
    /// Build a configuration from a human-readable tick-rate string, the
    /// form a configuration file supplies. Returns `None` exactly where the
    /// string is longer than `MAX_TICK_RATE_STR_CHARS`, does not parse as a
    /// duration, or holds a duration that does not fit in `u64`
    /// milliseconds.
    pub fn from_tick_rate_str(s: &str) -> (r: Option<Config>)
        ensures
            r is Some <==> (s@.len() <= MAX_TICK_RATE_STR_CHARS
                && parsed_duration_millis(s@) is Some
                && parsed_duration_millis(s@).unwrap() <= u64::MAX as u128),
            r is Some ==> r.unwrap().tick_rate_ms as u128 == parsed_duration_millis(s@).unwrap(),
    {
        let len = s.unicode_len();
        if len > MAX_TICK_RATE_STR_CHARS {
            return None;
        }
        match parse_duration_ms(s) {
            Some(ms) => {
                if ms <= u64::MAX as u128 {
                    Some(Config { tick_rate_ms: ms as u64 })
                } else {
                    None
                }
            },
            None => None,
        }
    }
}

} // verus!
