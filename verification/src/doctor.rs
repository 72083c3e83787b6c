//! `sdi doctor`: the report of the environment checks and the exit code it
//! leads to.
use vstd::prelude::*;

verus! {

/// The outcome of one check, with what went wrong where it failed.
#[derive(Debug, Clone)]
pub struct CheckResult {
    pub ok: bool,
    pub detail: Option<String>,
}

impl CheckResult {
    /// A passed check.
    pub fn ok() -> (r: CheckResult)
        ensures
            r.ok,
            r.detail is None,
    {
        CheckResult { ok: true, detail: None }
    }

    /// A failed check and why.
    pub fn fail(msg: String) -> (r: CheckResult)
        ensures
            !r.ok,
            r.detail == Some(msg),
    {
        CheckResult { ok: false, detail: Some(msg) }
    }
}

/// Where the data lives, and whether none of it lies under the plugin tree.
#[derive(Debug, Clone)]
pub struct PathReport {
    pub data: String,
    pub cache: String,
    pub config: String,
    pub state: String,
    pub db_file: String,
    pub lm8: CheckResult,
}

/// Whether the daemon answers, and what its files hold.
#[derive(Debug, Clone)]
pub struct DaemonReport {
    pub running: bool,
    pub pid: Option<u32>,
    pub port: Option<u16>,
}

/// The whole diagnosis.
#[derive(Debug, Clone)]
pub struct Report {
    pub paths: PathReport,
    pub db: CheckResult,
    pub daemon: DaemonReport,
}

impl Report {
    /// The report when the paths cannot be resolved at all: the path check
    /// fails with the reason, the database check is skipped, no daemon.
    pub fn paths_failed(reason: String) -> (r: Report)
        ensures
            r.paths.data@.len() == 0,
            r.paths.cache@.len() == 0,
            r.paths.config@.len() == 0,
            r.paths.state@.len() == 0,
            r.paths.db_file@.len() == 0,
            r.paths.lm8.ok == false,
            r.paths.lm8.detail == Some(reason),
            r.db.ok == false,
            r.db.detail matches Some(d) && d@ == "skipped \u{2014} paths failed"@,
            !r.daemon.running,
            r.daemon.pid is None,
            r.daemon.port is None,
    {
        Report {
            paths: PathReport {
                data: String::new(),
                cache: String::new(),
                config: String::new(),
                state: String::new(),
                db_file: String::new(),
                lm8: CheckResult::fail(reason),
            },
            db: CheckResult::fail(String::from_str("skipped \u{2014} paths failed")),
            daemon: DaemonReport { running: false, pid: None, port: None },
        }
    }
}

/// 0 when the path and database checks passed, 1 otherwise; the daemon does
/// not count.
pub fn exit_code(report: &Report) -> (r: i32)
    ensures
        r == if report.paths.lm8.ok && report.db.ok {
            0i32
        } else {
            1i32
        },
{
    let lm8_ok = report.paths.lm8.ok;
    if !(lm8_ok && report.db.ok) {
        return 1;
    }
    0
}

} // verus!
