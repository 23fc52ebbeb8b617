//! Settings of the service, with durations held in milliseconds.

use vstd::prelude::*;
use crate::text::{decimal, push_decimal};

verus! {

/// Where the HTTP server listens.
#[derive(Clone, Copy, Debug, PartialEq, Eq, Structural)]
pub struct Server {
    pub port: u16,
}

/// The store and the pool in front of it.
pub struct Database {
    pub host: String,
    pub port: u16,
    pub max_connections: usize,
    pub max_idle_ms: u64,
}

/// The coordination service and the lease time of its locks.
pub struct Redis {
    pub host: String,
    pub port: u16,
    pub ttl_ms: u64,
}

pub struct AppConfig {
    pub server: Server,
    pub db: Database,
    pub redis: Redis,
}

/// `prefix` + `host` + `:` + `port` + `suffix`.
pub open spec fn endpoint(prefix: Seq<char>, host: Seq<char>, port: u16, suffix: Seq<char>) -> Seq<char> {
    prefix + host + seq![':'] + decimal(port as nat) + suffix
}

fn render_endpoint(prefix: &str, host: &str, port: u16, suffix: &str) -> (r: String)
    ensures
        r@ == endpoint(prefix@, host@, port, suffix@),
{
    proof { reveal_strlit(":"); }
    let mut r = String::from_str(prefix);
    r.append(host);
    r.append(":");
    push_decimal(&mut r, port as u64);
    r.append(suffix);
    r
}

impl Database {
    /// The store's address, `http://host:port`.
    pub fn url(&self) -> (r: String)
        ensures
            r@ == endpoint(seq!['h', 't', 't', 'p', ':', '/', '/'], self.host@, self.port, Seq::empty()),
    {
        proof {
            reveal_strlit("http://");
            reveal_strlit("");
        }
        render_endpoint("http://", self.host.as_str(), self.port, "")
    }
}

impl Redis {
    /// The coordination service's address, `redis://host:port/`.
    pub fn url(&self) -> (r: String)
        ensures
            r@ == endpoint(seq!['r', 'e', 'd', 'i', 's', ':', '/', '/'], self.host@, self.port, seq!['/']),
    {
        proof {
            reveal_strlit("redis://");
            reveal_strlit("/");
        }
        render_endpoint("redis://", self.host.as_str(), self.port, "/")
    }
}

/// The duration humantime reads in `text`, as whole seconds and the
/// nanoseconds past them; `None` where it reads none.
pub uninterp spec fn human_duration_of(text: Seq<char>) -> Option<(u64, u32)>;

/// Most decimal digits a duration text may hold.
pub const MAX_DURATION_DIGITS: usize = 11;

/// The number of decimal digits `0`..`9` in `s`.
pub open spec fn digit_count(s: Seq<char>) -> nat
    decreases s.len(),
{
    if s.len() == 0 {
        0
    } else {
        digit_count(s.drop_last()) + if '0' <= s.last() && s.last() <= '9' { 1nat } else { 0nat }
    }
}

/// Whether `text` holds few enough digits to be read as a duration.
pub fn duration_text_in_bounds(text: &str) -> (r: bool)
    ensures
        r == (digit_count(text@) <= MAX_DURATION_DIGITS),
{
    let n = text.unicode_len();
    let mut count: usize = 0;
    let mut i: usize = 0;
    while i < n
        invariant
            n == text@.len(),
            i <= n,
            count == digit_count(text@.take(i as int)),
            count <= i,
        decreases n - i,
    {
        let c = text.get_char(i);
        proof {
            assert(text@.take(i + 1).drop_last() =~= text@.take(i as int));
            assert(text@.take(i + 1).last() == c);
        }
        if '0' <= c && c <= '9' {
            count = count + 1;
        }
        i = i + 1;
    }
    proof {
        assert(text@.take(n as int) =~= text@);
    }
    count <= MAX_DURATION_DIGITS
}

/// Relies on `humantime::parse_duration`, split by `Duration::as_secs` and
/// `Duration::subsec_nanos` (documented to stay below one billion).
///
/// humantime reads only `0`..`9` as digits, and each span adds at most its
/// integer value times a year (31,557,600 s), plus less than one year for a
/// fraction. With at most eleven digits in all, the total stays below
/// 10^11 * 31,557,600 + 11 * 31,557,600 + 11 s, far under `u64::MAX`
/// seconds, so its final `Duration::new` cannot overflow and panic.
#[verifier::external_body]
fn parse_human_duration(text: &str) -> (r: Option<(u64, u32)>)
    requires
        digit_count(text@) <= MAX_DURATION_DIGITS,
    ensures
        r == human_duration_of(text@),
        r matches Some(p) ==> p.1 < 1_000_000_000,
{
    let d = humantime::parse_duration(text).ok()?;
    Some((d.as_secs(), d.subsec_nanos()))
}

/// Whole milliseconds of a duration.
pub open spec fn millis(secs: u64, nanos: u32) -> int {
    secs * 1000 + nanos / 1_000_000
}

/// Reads a duration such as `1s` or `250ms` in whole milliseconds; `None`
/// where the text is no duration or the milliseconds do not fit.
pub fn duration_millis(text: &str) -> (r: Option<u64>)
    requires
        digit_count(text@) <= MAX_DURATION_DIGITS,
    ensures
        human_duration_of(text@) is None ==> r is None,
        human_duration_of(text@) matches Some(p) ==> (if millis(p.0, p.1) <= u64::MAX {
            r == Some(millis(p.0, p.1) as u64)
        } else {
            r is None
        }),
{
    match parse_human_duration(text) {
        None => None,
        Some(p) => {
            let (secs, nanos) = p;
            let frac: u64 = (nanos / 1_000_000) as u64;
            if secs > u64::MAX / 1000 {
                assert(secs * 1000 > u64::MAX) by (nonlinear_arith)
                    requires secs > u64::MAX / 1000;
                None
            } else {
                assert(secs * 1000 <= u64::MAX) by (nonlinear_arith)
                    requires secs <= u64::MAX / 1000;
                let whole = secs * 1000;
                if frac > u64::MAX - whole {
                    None
                } else {
                    Some(whole + frac)
                }
            }
        },
    }
}

} // verus!
