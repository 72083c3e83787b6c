//! The emergency bypass marker: arming arithmetic and the state a marker is in.
use vstd::prelude::*;
use crate::cli::{CliError, cli_error, is_cli_error};
use crate::text::{chars_of, trim_chars, spec_trim, string_of, owned};
use crate::ids::Timestamp;

verus! {

/// `sdi bypass arm` arguments.
#[derive(Debug, Clone)]
pub struct BypassArmArgs {
    pub reason: Option<String>,
    pub ttl: i64,
}

/// `a` is at or before `b`: compared by seconds, then by nanoseconds (which
/// reach 10^9 or more only inside a leap second).
pub open spec fn instant_before_or_at(a: Timestamp, b: Timestamp) -> bool {
    a.secs < b.secs || (a.secs == b.secs && a.nanos <= b.nanos)
}

/// Nanoseconds since the epoch.
pub open spec fn instant_nanos(a: Timestamp) -> int {
    a.secs * 1_000_000_000 + a.nanos
}

impl BypassArmArgs {
    /// When a marker armed at `now` expires: `ttl` whole seconds later. The
    /// ttl must be positive.
    pub fn expires_at(&self, now: Timestamp) -> (r: Result<Timestamp, CliError>)
        requires
            self.ttl > 0 ==> self.ttl <= i64::MAX / 1000 && now.secs + self.ttl <= i64::MAX,
        ensures
            self.ttl <= 0 ==> (r matches Err(e) && is_cli_error(e, "--ttl must be a positive number of seconds"@)),
            self.ttl > 0 ==> r == Ok::<Timestamp, CliError>((Timestamp { secs: (now.secs + self.ttl) as i64, nanos: now.nanos })),
    {
        if self.ttl <= 0 {
            return Err(cli_error(owned("--ttl must be a positive number of seconds")));
        }
        Ok(Timestamp { secs: now.secs + self.ttl, nanos: now.nanos })
    }
}

impl Default for BypassArmArgs {
    /// No reason, and the marker lasts 60 seconds.
    fn default() -> (r: BypassArmArgs)
        ensures
            r.reason is None,
            r.ttl == 60,
    {
        BypassArmArgs { reason: None, ttl: 60 }
    }
}

/// State of the bypass marker.
#[derive(Debug, Clone, Copy, PartialEq, Eq, Structural)]
pub enum BypassState {
    Absent,
    Armed,
    Expired,
}

impl BypassState {
    pub open spec fn spec_name(self) -> Seq<char> {
        match self {
            BypassState::Absent => "absent"@,
            BypassState::Armed => "armed"@,
            BypassState::Expired => "expired"@,
        }
    }

    pub fn as_str(self) -> (r: &'static str)
        ensures
            r@ == self.spec_name(),
    {
        match self {
            BypassState::Absent => "absent",
            BypassState::Armed => "armed",
            BypassState::Expired => "expired",
        }
    }
}

/// The state of a JSON marker, given its expiry, at `now`: expired (0
/// seconds left) once the expiry is at or before `now`; armed forever (-1)
/// when no expiry can be read.
pub open spec fn spec_marker_state(expires: Option<Timestamp>, now: Timestamp) -> BypassState {
    match expires {
        None => BypassState::Armed,
        Some(exp) => if instant_before_or_at(exp, now) {
            BypassState::Expired
        } else {
            BypassState::Armed
        },
    }
}

/// The whole seconds left before the expiry (the duration truncated), for
/// instants outside leap seconds.
pub open spec fn spec_seconds_left(exp: Timestamp, now: Timestamp) -> int {
    (instant_nanos(exp) - instant_nanos(now)) / 1_000_000_000
}

/// `n`, or the largest `i64` where `n` is larger.
pub open spec fn clamp_to_i64(n: int) -> int {
    if n > i64::MAX { i64::MAX as int } else { n }
}

/// The state of a marker whose expiry instant is known, and the seconds it
/// has left: 0 when expired, -1 when armed forever, else the whole seconds
/// to the expiry, capped at the largest `i64` (stated where neither instant
/// lies inside a leap second, which the clock's arithmetic counts its own
/// way).
pub fn marker_state_at(expires: Option<Timestamp>, now: Timestamp) -> (r: (BypassState, i64))
    ensures
        r.0 == spec_marker_state(expires, now),
        match expires {
            None => r.1 == -1,
            Some(exp) => if instant_before_or_at(exp, now) {
                r.1 == 0
            } else {
                exp.nanos < 1_000_000_000 && now.nanos < 1_000_000_000 ==> r.1 == clamp_to_i64(spec_seconds_left(exp, now))
            },
        },
{
    match expires {
        None => (BypassState::Armed, -1),
        Some(exp) => if exp.secs < now.secs || (exp.secs == now.secs && exp.nanos <= now.nanos) {
            (BypassState::Expired, 0)
        } else {
            let d: i128 = (exp.secs as i128 - now.secs as i128) * 1_000_000_000 + exp.nanos as i128 - now.nanos as i128;
            let q: i128 = d / 1_000_000_000;
            proof {
                if exp.nanos < 1_000_000_000 && now.nanos < 1_000_000_000 {
                    assert(d == instant_nanos(exp) - instant_nanos(now)) by (nonlinear_arith)
                        requires
                            d == (exp.secs as int - now.secs as int) * 1_000_000_000 + exp.nanos as int - now.nanos as int;
                    assert(d > 0);
                    assert(q == d / 1_000_000_000);
                    assert(q >= 0);
                }
            }
            let left: i64 = if q > i64::MAX as i128 {
                i64::MAX
            } else if q < i64::MIN as i128 {
                i64::MIN
            } else {
                q as i64
            };
            (BypassState::Armed, left)
        },
    }
}

/// The instant an RFC 3339 text names: its whole seconds since the epoch
/// and the nanoseconds past them.
pub uninterp spec fn rfc3339_instant(s: Seq<char>) -> Option<Timestamp>;

/// `chrono::DateTime::parse_from_rfc3339(s)`, as `timestamp()` seconds and
/// `timestamp_subsec_nanos()` nanoseconds; `None` when the text is not RFC 3339. The
/// result is a function of the text alone.
#[verifier::external_body]
fn parse_rfc3339_instant(s: &str) -> (r: Option<Timestamp>)
    ensures
        r == rfc3339_instant(s@),
{
    chrono::DateTime::parse_from_rfc3339(s).ok().map(|d| Timestamp { secs: d.timestamp(), nanos: d.timestamp_subsec_nanos() })
}

/// The expiry a JSON marker's `expires_at` text names, if it has one.
pub open spec fn marker_expiry(expires_at: Option<&str>) -> Option<Timestamp> {
    match expires_at {
        Some(s) => rfc3339_instant(s@),
        None => None,
    }
}

/// The state of a JSON marker given its `expires_at` text, if it has one,
/// and the seconds it has left, as `marker_state_at` gives them for the
/// instant the text names.
pub fn marker_state(expires_at: Option<&str>, now: Timestamp) -> (r: (BypassState, i64))
    ensures
        r.0 == spec_marker_state(marker_expiry(expires_at), now),
        match marker_expiry(expires_at) {
            None => r.1 == -1,
            Some(exp) => if instant_before_or_at(exp, now) {
                r.1 == 0
            } else {
                exp.nanos < 1_000_000_000 && now.nanos < 1_000_000_000 ==> r.1 == clamp_to_i64(spec_seconds_left(exp, now))
            },
        },
{
    let exp = match expires_at {
        Some(s) => parse_rfc3339_instant(s),
        None => None,
    };
    marker_state_at(exp, now)
}

/// What `sdi bypass status` reports of a marker whose body is plain text,
/// not JSON: armed forever, with the trimmed body as its reason.
#[derive(Debug, Clone, PartialEq, Eq)]
pub struct PlainMarkerStatus {
    pub state: BypassState,
    pub ttl_remaining_seconds: i64,
    pub reason: Option<String>,
    pub format: String,
}

/// The status of a plain-text marker: armed, -1 seconds left (forever), the
/// body's trimmed text as reason (none when blank), format `plain-text`.
pub fn plain_marker_status(raw: &str) -> (r: PlainMarkerStatus)
    ensures
        r.state == BypassState::Armed,
        r.ttl_remaining_seconds == -1,
        spec_trim(raw@).len() == 0 ==> r.reason is None,
        spec_trim(raw@).len() > 0 ==> (r.reason matches Some(s) && s@ == spec_trim(raw@)),
        r.format@ == "plain-text"@,
{
    PlainMarkerStatus {
        state: BypassState::Armed,
        ttl_remaining_seconds: -1,
        reason: plain_marker_reason(raw),
        format: owned("plain-text"),
    }
}

/// The reason recorded in a plain-text marker: its trimmed text, or none
/// when blank.
pub fn plain_marker_reason(raw: &str) -> (r: Option<String>)
    ensures
        spec_trim(raw@).len() == 0 ==> r is None,
        spec_trim(raw@).len() > 0 ==> (r matches Some(s) && s@ == spec_trim(raw@)),
{
    let v = chars_of(raw);
    let t = trim_chars(&v);
    if t.len() == 0 {
        None
    } else {
        let s = string_of(&t, 0, t.len());
        assert(s@ =~= t@);
        Some(s)
    }
}

} // verus!
