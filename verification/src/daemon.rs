//! The daemon's lifecycle files: the pid and port they hold, the status
//! reported from them, where the daemon binary is looked for, and the
//! decisions `start` and `stop` take between their looks at those files.
use vstd::prelude::*;
use crate::text::{chars_of, spec_trim, trim_chars, string_of, nat_decimal, digit_char, owned, push_nat_decimal};

verus! {

/// The value of a decimal digit character.
pub open spec fn digit_value(c: char) -> int {
    c as int - '0' as int
}

/// Every character is an ASCII digit.
pub open spec fn all_digits(s: Seq<char>) -> bool {
    forall|i: int| 0 <= i < s.len() ==> '0' <= #[trigger] s[i] && s[i] <= '9'
}

/// The number a string of digits spells, most significant first.
pub open spec fn digits_value(s: Seq<char>) -> nat
    decreases s.len(),
{
    if s.len() == 0 {
        0
    } else {
        (digits_value(s.drop_last()) * 10 + digit_value(s.last())) as nat
    }
}

/// The digits of an unsigned number: all after a leading `+`, if any.
pub open spec fn unsigned_digits(s: Seq<char>) -> Seq<char> {
    if s.len() > 0 && s[0] == '+' {
        s.drop_first()
    } else {
        s
    }
}

/// How an unsigned integer type no larger than `max` reads a string (`str`'s
/// `parse`): an optional `+`, then one or more digits whose value fits.
pub open spec fn spec_parse_unsigned(s: Seq<char>, max: nat) -> Option<nat> {
    let d = unsigned_digits(s);
    if d.len() > 0 && all_digits(d) && digits_value(d) <= max {
        Some(digits_value(d))
    } else {
        None
    }
}

proof fn lemma_digits_grow(s: Seq<char>, i: int, j: int)
    requires
        0 <= i <= j <= s.len(),
        all_digits(s),
    ensures
        digits_value(s.take(i)) <= digits_value(s.take(j)),
    decreases j - i,
{
    if i < j {
        lemma_digits_grow(s, i, j - 1);
        assert(s.take(j).drop_last() =~= s.take(j - 1));
        assert('0' <= s[j - 1] && s[j - 1] <= '9');
    }
}

/// Reads an unsigned number no larger than `max` the way `str::parse` does.
pub fn parse_unsigned(s: &str, max: u64) -> (r: Option<u64>)
    ensures
        match spec_parse_unsigned(s@, max as nat) {
            Some(v) => r == Some(v as u64),
            None => r is None,
        },
{
    let v = chars_of(s);
    let n = v.len();
    let start: usize = if n > 0 && v[0] == '+' {
        1
    } else {
        0
    };
    let ghost d = unsigned_digits(s@);
    assert(d =~= v@.skip(start as int));
    if start >= n {
        return None;
    }
    let mut value: u64 = 0;
    let mut i: usize = start;
    assert(d.take(0) =~= Seq::<char>::empty());
    while i < n
        invariant
            start <= i <= n,
            n == v@.len(),
            v@ == s@,
            d == unsigned_digits(s@),
            d == v@.skip(start as int),
            forall|q: int| start <= q < i ==> '0' <= #[trigger] v@[q] && v@[q] <= '9',
            value == digits_value(d.take(i - start)),
            value <= max,
        decreases n - i,
    {
        let c = v[i];
        if c < '0' || c > '9' {
            assert(d[i - start] == c);
            assert(!all_digits(d));
            return None;
        }
        let x: u64 = (c as u32 - '0' as u32) as u64;
        proof {
            assert(d.take(i - start + 1).drop_last() =~= d.take(i - start));
            assert(d.take(i - start + 1).last() == c);
            assert(x == digit_value(c));
            assert(digits_value(d.take(i - start + 1)) == value * 10 + x);
        }
        if x > max || value > (max - x) / 10 {
            proof {
                assert(value * 10 + x > max) by (nonlinear_arith)
                    requires
                        x > max || value > (max - x) / 10,
                ;
                if all_digits(d) {
                    lemma_digits_grow(d, i - start + 1, d.len() as int);
                    assert(d.take(d.len() as int) =~= d);
                }
            }
            return None;
        }
        assert(value * 10 + x <= max) by (nonlinear_arith)
            requires
                x <= max,
                value <= (max - x) / 10,
        ;
        value = value * 10 + x;
        i += 1;
    }
    proof {
        assert(d.take(n - start) =~= d);
    }
    Some(value)
}


/// The number a lifecycle file holds: its text trimmed, then read as an
/// unsigned number no larger than `max`.
pub open spec fn spec_file_number(text: Seq<char>, max: nat) -> Option<nat> {
    spec_parse_unsigned(spec_trim(text), max)
}

/// The trimmed text read as an unsigned number no larger than `max`.
fn trimmed_number(text: &str, max: u64) -> (r: Option<u64>)
    ensures
        match spec_file_number(text@, max as nat) {
            Some(v) => r == Some(v as u64),
            None => r is None,
        },
{
    let v = chars_of(text);
    let t = trim_chars(&v);
    let s = string_of(&t, 0, t.len());
    assert(s@ =~= t@);
    parse_unsigned(s.as_str(), max)
}

/// The pid a pid file holds, if its text is one.
pub fn pid_from_text(text: &str) -> (r: Option<u32>)
    ensures
        match spec_file_number(text@, u32::MAX as nat) {
            Some(v) => r == Some(v as u32),
            None => r is None,
        },
{
    match trimmed_number(text, 4294967295u64) {
        Some(v) => Some(v as u32),
        None => None,
    }
}

/// The port a port file holds, if its text is one.
pub fn port_from_text(text: &str) -> (r: Option<u16>)
    ensures
        match spec_file_number(text@, u16::MAX as nat) {
            Some(v) => r == Some(v as u16),
            None => r is None,
        },
{
    match trimmed_number(text, 65535u64) {
        Some(v) => Some(v as u16),
        None => None,
    }
}

/// What `sdi daemon status` reports: whether the daemon answers on its port,
/// and the pid and port its files hold.
#[derive(Debug, Clone, Copy, PartialEq, Eq, Structural)]
pub struct Status {
    pub running: bool,
    pub pid: Option<u32>,
    pub port: Option<u16>,
}

/// Where the daemon binary is taken from.
#[derive(Debug, Clone, Copy, PartialEq, Eq, Structural)]
pub enum SdidSource {
    /// The path given by the environment.
    Environment,
    /// `sdid` beside the running executable.
    Sibling,
    /// `daemon/bin/sdid` under the executable's parent directory.
    Distribution,
    /// The bare name, resolved through `PATH`.
    SearchPath,
}

/// The order in which the daemon binary is looked for: a path the
/// environment names, where it exists; then `sdid` beside the running
/// executable; then the distribution layout; else the bare name. Each
/// argument says whether that candidate exists (`false` where there is none).
pub fn resolve_sdid(env_exists: bool, sibling_exists: bool, dist_exists: bool) -> (r: SdidSource)
    ensures
        r == if env_exists {
            SdidSource::Environment
        } else if sibling_exists {
            SdidSource::Sibling
        } else if dist_exists {
            SdidSource::Distribution
        } else {
            SdidSource::SearchPath
        },
{
    if env_exists {
        SdidSource::Environment
    } else if sibling_exists {
        SdidSource::Sibling
    } else if dist_exists {
        SdidSource::Distribution
    } else {
        SdidSource::SearchPath
    }
}


/// How long `start` waits for the port file, and `stop` for the daemon to go
/// quiet, in milliseconds.
pub const LIFECYCLE_TIMEOUT_MS: u64 = 5000;

/// The pause between two looks at the lifecycle files, in milliseconds.
pub const POLL_INTERVAL_MS: u64 = 50;

/// What `sdi daemon start` or `sdi daemon stop` does next.
#[derive(Debug, Clone, Copy, PartialEq, Eq, Structural)]
pub enum LifecycleAction {
    /// Done: the daemon answers on this port.
    Ready(u16),
    /// Remove the stale pid and port files, then spawn the daemon.
    Spawn,
    /// Send SIGTERM to this pid.
    Signal(u32),
    /// Remove the pid and port files; the daemon is down.
    Sweep,
    /// Wait one poll interval and look again.
    Sleep,
    /// Give up: the deadline passed.
    TimedOut,
    /// Give up: there is no pid file.
    NotRunning,
}

/// `start`'s first decision, from whether the daemon answers and the port
/// its file holds: a daemon that answers on a readable port is reused;
/// otherwise a new one is spawned.
pub fn start_first_step(running: bool, port: Option<u16>) -> (r: LifecycleAction)
    ensures
        r == (match port {
            Some(p) => if running { LifecycleAction::Ready(p) } else { LifecycleAction::Spawn },
            None => LifecycleAction::Spawn,
        }),
{
    match port {
        Some(p) => if running {
            LifecycleAction::Ready(p)
        } else {
            LifecycleAction::Spawn
        },
        None => LifecycleAction::Spawn,
    }
}

/// One look while `start` waits for the spawned daemon: past the deadline it
/// gives up; a readable port file ends the wait with that port; else it
/// sleeps and looks again.
pub fn start_wait_step(before_deadline: bool, port: Option<u16>) -> (r: LifecycleAction)
    ensures
        r == (if !before_deadline {
            LifecycleAction::TimedOut
        } else {
            match port {
                Some(p) => LifecycleAction::Ready(p),
                None => LifecycleAction::Sleep,
            }
        }),
{
    if !before_deadline {
        LifecycleAction::TimedOut
    } else {
        match port {
            Some(p) => LifecycleAction::Ready(p),
            None => LifecycleAction::Sleep,
        }
    }
}

/// `stop`'s first decision, from the pid its file holds and whether the
/// daemon answers: no pid file is an error; a daemon that does not answer
/// (crashed, or a zombie) only has its files swept; else it is signalled.
pub fn stop_first_step(pid: Option<u32>, responds: bool) -> (r: LifecycleAction)
    ensures
        r == (match pid {
            None => LifecycleAction::NotRunning,
            Some(p) => if responds { LifecycleAction::Signal(p) } else { LifecycleAction::Sweep },
        }),
{
    match pid {
        None => LifecycleAction::NotRunning,
        Some(p) => if responds {
            LifecycleAction::Signal(p)
        } else {
            LifecycleAction::Sweep
        },
    }
}

/// One look while `stop` waits for the signalled daemon: past the deadline
/// it gives up; once the daemon no longer answers its files are swept; else
/// it sleeps and looks again.
pub fn stop_wait_step(before_deadline: bool, responds: bool) -> (r: LifecycleAction)
    ensures
        r == (if !before_deadline {
            LifecycleAction::TimedOut
        } else if !responds {
            LifecycleAction::Sweep
        } else {
            LifecycleAction::Sleep
        }),
{
    if !before_deadline {
        LifecycleAction::TimedOut
    } else if !responds {
        LifecycleAction::Sweep
    } else {
        LifecycleAction::Sleep
    }
}

/// The error `start` gives when no port file appears in time.
pub fn start_timeout_message(port_file: &str, log_file: &str) -> (r: String)
    ensures
        r@ == "daemon did not write port file at "@ + port_file@ + " within 5s \u{2014} check log at "@
            + log_file@,
{
    let mut s = owned("daemon did not write port file at ");
    s.append(port_file);
    s.append(" within 5s \u{2014} check log at ");
    s.append(log_file);
    s
}

/// The error `stop` gives when there is no pid file.
pub fn stop_not_running_message() -> (r: String)
    ensures
        r@ == "daemon not running (no pid file)"@,
{
    owned("daemon not running (no pid file)")
}

/// The error `stop` gives when SIGTERM cannot be sent to `pid`.
pub fn kill_failed_message(pid: u32) -> (r: String)
    ensures
        r@ == "kill("@ + nat_decimal(pid as nat) + ", SIGTERM) failed"@,
{
    let mut s = owned("kill(");
    push_nat_decimal(&mut s, pid as u64);
    s.append(", SIGTERM) failed");
    s
}

/// The error `stop` gives when the daemon still answers at the deadline.
pub fn stop_timeout_message(pid: u32) -> (r: String)
    ensures
        r@ == "daemon (pid "@ + nat_decimal(pid as nat) + ") did not exit within 5s"@,
{
    let mut s = owned("daemon (pid ");
    push_nat_decimal(&mut s, pid as u64);
    s.append(") did not exit within 5s");
    s
}

proof fn lemma_digit_char_value(d: int)
    requires
        0 <= d < 10,
    ensures
        digit_value(digit_char(d)) == d,
        '0' <= digit_char(d) && digit_char(d) <= '9',
{
}

proof fn lemma_decimal_digits(n: nat)
    ensures
        nat_decimal(n).len() > 0,
        all_digits(nat_decimal(n)),
        digits_value(nat_decimal(n)) == n,
    decreases n,
{
    lemma_digit_char_value((n % 10) as int);
    if n < 10 {
        assert(nat_decimal(n).drop_last() =~= Seq::<char>::empty());
        assert(nat_decimal(n).last() == digit_char(n as int));
        assert(digits_value(Seq::<char>::empty()) == 0);
    } else {
        lemma_decimal_digits(n / 10);
        let s = nat_decimal(n / 10);
        let t = s.push(digit_char((n % 10) as int));
        assert(t.drop_last() =~= s);
        assert(t.last() == digit_char((n % 10) as int));
        assert(nat_decimal(n) == t);
        assert(digits_value(t) == digits_value(s) * 10 + digit_value(t.last()));
        assert((n / 10) * 10 + n % 10 == n);
        assert forall|i: int| 0 <= i < t.len() implies '0' <= #[trigger] t[i] && t[i] <= '9' by {
            if i < s.len() {
                assert(t[i] == s[i]);
            }
        }
    }
}

/// A number written in decimal reads back as itself: what the daemon writes
/// into its pid and port files is what is read from them.
pub proof fn law_decimal_reads_back(n: nat, max: nat)
    requires
        n <= max,
    ensures
        spec_parse_unsigned(nat_decimal(n), max) == Some(n),
{
    lemma_decimal_digits(n);
    assert(nat_decimal(n)[0] != '+');
}

} // verus!
