//! Arguments of the `sdi` subcommands that carry logic of their own, and the
//! daemon request paths built from them.
use vstd::prelude::*;
use vstd::utf8::encode_utf8;
use crate::text::{owned, nat_decimal, push_nat_decimal, chars_of, trim_chars, string_of, spec_trim};
use crate::url::{spec_urlencode, push_urlencoded};

verus! {

/// A command-line usage error, with the message shown to the user.
#[derive(Debug, Clone, PartialEq, Eq)]
pub struct CliError {
    pub message: String,
}

/// `e` is a usage error with message `msg`.
pub open spec fn is_cli_error(e: CliError, msg: Seq<char>) -> bool {
    e.message@ == msg
}

/// A usage error with the given message.
pub fn cli_error(message: String) -> (e: CliError)
    ensures
        e.message@ == message@,
{
    CliError { message }
}

/// The view of an optional string.
pub open spec fn ov(o: Option<String>) -> Option<Seq<char>> {
    match o {
        Some(s) => Some(s@),
        None => None,
    }
}

/// `key` and `value` as a query fragment when `value` is present.
pub open spec fn opt_param(key: Seq<char>, value: Option<Seq<char>>) -> Seq<char> {
    match value {
        Some(v) => key + v,
        None => Seq::empty(),
    }
}

/// Percent-encoded text (unreserved bytes kept).
pub open spec fn enc(s: Seq<char>) -> Seq<char> {
    spec_urlencode(encode_utf8(s), false)
}

/// Percent-encoded text that keeps `/`.
pub open spec fn enc_path(s: Seq<char>) -> Seq<char> {
    spec_urlencode(encode_utf8(s), true)
}

fn push_opt(out: &mut String, key: &str, value: &Option<String>)
    ensures
        final(out)@ == old(out)@ + opt_param(key@, ov(*value)),
{
    if let Some(v) = value {
        out.append(key);
        out.append(v.as_str());
    }
}

fn push_opt_encoded(out: &mut String, key: &str, value: &Option<String>)
    ensures
        final(out)@ == old(out)@ + match *value {
            Some(v) => key@ + enc(v@),
            None => Seq::<char>::empty(),
        },
{
    if let Some(v) = value {
        out.append(key);
        push_urlencoded(out, v.as_str(), false);
    }
}

/// How a project-scoped command names its project: a positional id or key,
/// `--project`, or `--cwd` (default: the current directory).
#[derive(Debug, Clone)]
pub struct ProjectSelector {
    pub project_id: Option<String>,
    pub project: Option<String>,
    pub cwd: Option<String>,
}

impl ProjectSelector {
    /// The explicit id or key: the positional, else `--project`.
    pub fn explicit(&self) -> (r: Option<&str>)
        ensures
            match r {
                Some(s) => match self.project_id {
                    Some(p) => s@ == p@,
                    None => self.project matches Some(q) && s@ == q@,
                },
                None => self.project_id is None && self.project is None,
            },
    {
        match &self.project_id {
            Some(p) => Some(p.as_str()),
            None => match &self.project {
                Some(q) => Some(q.as_str()),
                None => None,
            },
        }
    }
}

/// `sdi timeline` arguments.
#[derive(Debug, Clone)]
pub struct TimelineArgs {
    pub selector: ProjectSelector,
    pub limit: usize,
}

impl TimelineArgs {
    /// The activity feed of the resolved project.
    pub fn path(&self, project_id: &str) -> (r: String)
        ensures
            r@ == "/activity?project_id="@ + project_id@ + "&limit="@ + nat_decimal(self.limit as nat),
    {
        let mut s = owned("/activity?project_id=");
        s.append(project_id);
        s.append("&limit=");
        push_nat_decimal(&mut s, self.limit as u64);
        s
    }
}

/// `sdi replay` arguments.
#[derive(Debug, Clone)]
pub struct ReplayArgs {
    pub project_id: Option<String>,
    pub since: Option<String>,
    pub limit: usize,
}

impl ReplayArgs {
    pub fn path(&self) -> (r: String)
        ensures
            r@ == "/events/replay?limit="@ + nat_decimal(self.limit as nat) + opt_param(
                "&project_id="@,
                ov(self.project_id),
            ) + opt_param("&since="@, ov(self.since)),
    {
        let mut s = owned("/events/replay?limit=");
        push_nat_decimal(&mut s, self.limit as u64);
        push_opt(&mut s, "&project_id=", &self.project_id);
        push_opt(&mut s, "&since=", &self.since);
        s
    }
}

/// `sdi agent-note list` arguments.
#[derive(Debug, Clone)]
pub struct AgentNoteListArgs {
    pub scope: String,
    pub anchor: String,
    pub kind: Option<String>,
}

impl AgentNoteListArgs {
    pub fn path(&self) -> (r: String)
        ensures
            r@ == "/agent_notes?scope_kind="@ + enc(self.scope@) + "&anchor_id="@ + enc(self.anchor@)
                + match self.kind {
                Some(k) => "&kind="@ + enc(k@),
                None => Seq::<char>::empty(),
            },
    {
        let mut s = owned("/agent_notes?scope_kind=");
        push_urlencoded(&mut s, self.scope.as_str(), false);
        s.append("&anchor_id=");
        push_urlencoded(&mut s, self.anchor.as_str(), false);
        push_opt_encoded(&mut s, "&kind=", &self.kind);
        s
    }
}

/// The hand-offs waiting for an agent.
pub fn handoffs_path(to_agent: &str) -> (r: String)
    ensures
        r@ == "/agent_notes/handoffs?to_agent="@ + enc(to_agent@),
{
    let mut s = owned("/agent_notes/handoffs?to_agent=");
    push_urlencoded(&mut s, to_agent, false);
    s
}

/// `sdi autonomy get` arguments.
#[derive(Debug, Clone)]
pub struct AutonomyGetArgs {
    pub project_id: String,
    pub plan_id: Option<String>,
    pub decision_kind: Option<String>,
}

impl AutonomyGetArgs {
    pub fn path(&self) -> (r: String)
        ensures
            r@ == "/autonomy_policies/resolve?project_id="@ + enc(self.project_id@) + match self.plan_id {
                Some(p) => "&plan_id="@ + enc(p@),
                None => Seq::<char>::empty(),
            } + match self.decision_kind {
                Some(k) => "&decision_kind="@ + enc(k@),
                None => Seq::<char>::empty(),
            },
    {
        let mut s = owned("/autonomy_policies/resolve?project_id=");
        push_urlencoded(&mut s, self.project_id.as_str(), false);
        push_opt_encoded(&mut s, "&plan_id=", &self.plan_id);
        push_opt_encoded(&mut s, "&decision_kind=", &self.decision_kind);
        s
    }
}

/// The policies of a project.
pub fn autonomy_list_path(project_id: &str) -> (r: String)
    ensures
        r@ == "/autonomy_policies?project_id="@ + enc(project_id@),
{
    let mut s = owned("/autonomy_policies?project_id=");
    push_urlencoded(&mut s, project_id, false);
    s
}

/// `sdi knowledge list` arguments.
#[derive(Debug, Clone)]
pub struct KnowledgeListArgs {
    pub project_id: String,
    pub scope: Option<String>,
}

impl KnowledgeListArgs {
    pub fn path(&self) -> (r: String)
        ensures
            r@ == "/knowledge?project_id="@ + self.project_id@ + opt_param("&scope="@, ov(self.scope)),
    {
        let mut s = owned("/knowledge?project_id=");
        s.append(self.project_id.as_str());
        push_opt(&mut s, "&scope=", &self.scope);
        s
    }
}

/// `sdi knowledge search` arguments.
#[derive(Debug, Clone)]
pub struct KnowledgeSearchArgs {
    pub project_id: String,
    pub q: String,
    pub scope: Option<String>,
    pub limit: usize,
}

impl KnowledgeSearchArgs {
    pub fn path(&self) -> (r: String)
        ensures
            r@ == "/knowledge/search?project_id="@ + self.project_id@ + "&q="@ + enc(self.q@)
                + "&limit="@ + nat_decimal(self.limit as nat) + opt_param("&scope="@, ov(self.scope)),
    {
        let mut s = owned("/knowledge/search?project_id=");
        s.append(self.project_id.as_str());
        s.append("&q=");
        push_urlencoded(&mut s, self.q.as_str(), false);
        s.append("&limit=");
        push_nat_decimal(&mut s, self.limit as u64);
        push_opt(&mut s, "&scope=", &self.scope);
        s
    }
}

/// `sdi scenario search` arguments.
#[derive(Debug, Clone)]
pub struct ScenarioSearchArgs {
    pub plan_id: String,
    pub query: String,
    pub limit: usize,
}

impl ScenarioSearchArgs {
    pub fn path(&self) -> (r: String)
        ensures
            r@ == "/scenarios/search?plan_id="@ + self.plan_id@ + "&q="@ + enc(self.query@)
                + "&limit="@ + nat_decimal(self.limit as nat),
    {
        let mut s = owned("/scenarios/search?plan_id=");
        s.append(self.plan_id.as_str());
        s.append("&q=");
        push_urlencoded(&mut s, self.query.as_str(), false);
        s.append("&limit=");
        push_nat_decimal(&mut s, self.limit as u64);
        s
    }
}

/// `sdi pattern list` arguments.
#[derive(Debug, Clone)]
pub struct PatternListArgs {
    pub plan: Option<String>,
    pub active: bool,
    pub kind: Option<String>,
}

impl PatternListArgs {
    /// The active patterns, or those of `--plan`; one of the two is needed.
    pub fn path(&self) -> (r: Result<String, CliError>)
        ensures
            self.active ==> (r matches Ok(p) && p@ == "/patterns/active"@),
            !self.active ==> match self.plan {
                Some(p) => r matches Ok(s) && s@ == "/patterns?plan_id="@ + enc(p@),
                None => r matches Err(e) && is_cli_error(
                    e,
                    "`sdi pattern list` requires --plan <PLAN-ID> or --active"@,
                ),
            },
    {
        if self.active {
            return Ok(owned("/patterns/active"));
        }
        match &self.plan {
            Some(p) => {
                let mut s = owned("/patterns?plan_id=");
                push_urlencoded(&mut s, p.as_str(), false);
                Ok(s)
            },
            None => Err(cli_error(owned("`sdi pattern list` requires --plan <PLAN-ID> or --active"))),
        }
    }
}

/// The patterns of a plan (`sdi pattern tree`).
#[derive(Debug, Clone)]
pub struct PatternTreeArgs {
    pub plan: String,
}

impl PatternTreeArgs {
    pub fn path(&self) -> (r: String)
        ensures
            r@ == "/patterns?plan_id="@ + enc(self.plan@),
    {
        let mut s = owned("/patterns?plan_id=");
        push_urlencoded(&mut s, self.plan.as_str(), false);
        s
    }
}

/// `sdi usage list` arguments.
#[derive(Debug, Clone)]
pub struct UsageListArgs {
    pub project_id: Option<String>,
    pub plan_id: Option<String>,
    pub task_id: Option<String>,
}

impl UsageListArgs {
    /// The narrowest scope given wins: task, then plan, then project.
    pub fn path(&self) -> (r: Result<String, CliError>)
        ensures
            match (self.task_id, self.plan_id, self.project_id) {
                (Some(t), _, _) => r matches Ok(s) && s@ == "/usage?task_id="@ + t@,
                (None, Some(p), _) => r matches Ok(s) && s@ == "/usage?plan_id="@ + p@,
                (None, None, Some(p)) => r matches Ok(s) && s@ == "/usage?project_id="@ + p@,
                (None, None, None) => r matches Err(e) && is_cli_error(
                    e,
                    "--project-id, --plan-id, or --task-id required"@,
                ),
            },
    {
        if let Some(t) = &self.task_id {
            return Ok(owned("/usage?task_id=").concat(t.as_str()));
        }
        if let Some(p) = &self.plan_id {
            return Ok(owned("/usage?plan_id=").concat(p.as_str()));
        }
        if let Some(p) = &self.project_id {
            return Ok(owned("/usage?project_id=").concat(p.as_str()));
        }
        Err(cli_error(owned("--project-id, --plan-id, or --task-id required")))
    }
}

/// `sdi run list` arguments.
#[derive(Debug, Clone)]
pub struct RunListArgs {
    pub task_id: Option<String>,
    pub session_id: Option<String>,
}

impl RunListArgs {
    pub fn path(&self) -> (r: Result<String, CliError>)
        ensures
            match (self.task_id, self.session_id) {
                (Some(t), _) => r matches Ok(s) && s@ == "/runs?task_id="@ + t@,
                (None, Some(x)) => r matches Ok(s) && s@ == "/runs?session_id="@ + x@,
                (None, None) => r matches Err(e) && is_cli_error(e, "--task-id or --session-id required"@),
            },
    {
        if let Some(t) = &self.task_id {
            return Ok(owned("/runs?task_id=").concat(t.as_str()));
        }
        if let Some(x) = &self.session_id {
            return Ok(owned("/runs?session_id=").concat(x.as_str()));
        }
        Err(cli_error(owned("--task-id or --session-id required")))
    }
}

/// `sdi question list` arguments.
#[derive(Debug, Clone)]
pub struct QuestionListArgs {
    pub plan_id: String,
    pub status: Option<String>,
}

impl QuestionListArgs {
    pub fn path(&self) -> (r: String)
        ensures
            r@ == "/questions?plan_id="@ + self.plan_id@ + opt_param("&status="@, ov(self.status)),
    {
        let mut s = owned("/questions?plan_id=");
        s.append(self.plan_id.as_str());
        push_opt(&mut s, "&status=", &self.status);
        s
    }
}

/// `sdi export knowledge` arguments.
#[derive(Debug, Clone)]
pub struct ExportKnowledgeArgs {
    pub project_id: String,
    pub scope: Option<String>,
}

impl ExportKnowledgeArgs {
    pub fn path(&self) -> (r: String)
        ensures
            r@ == "/knowledge/export?project_id="@ + self.project_id@ + opt_param("&scope="@, ov(self.scope)),
    {
        let mut s = owned("/knowledge/export?project_id=");
        s.append(self.project_id.as_str());
        push_opt(&mut s, "&scope=", &self.scope);
        s
    }
}

/// `sdi task preflight` arguments.
#[derive(Debug, Clone)]
pub struct TaskPreflightArgs {
    pub id: String,
    pub tier: Option<String>,
}

impl TaskPreflightArgs {
    pub fn path(&self) -> (r: String)
        ensures
            r@ == "/tasks/"@ + self.id@ + "/usage/preflight"@ + opt_param("?tier="@, ov(self.tier)),
    {
        let mut s = owned("/tasks/");
        s.append(self.id.as_str());
        s.append("/usage/preflight");
        push_opt(&mut s, "?tier=", &self.tier);
        s
    }
}

/// `sdi consensus status` arguments.
#[derive(Debug, Clone)]
pub struct ConsensusStatusArgs {
    pub plan_id: String,
    pub proposal_id: Option<String>,
}

impl ConsensusStatusArgs {
    pub fn path(&self) -> (r: String)
        ensures
            r@ == "/decisions?plan_id="@ + enc(self.plan_id@),
    {
        let mut s = owned("/decisions?plan_id=");
        push_urlencoded(&mut s, self.plan_id.as_str(), false);
        s
    }
}

/// `sdi project delete` arguments.
#[derive(Debug, Clone)]
pub struct ProjectDeleteArgs {
    pub id: String,
    pub force: bool,
}

impl ProjectDeleteArgs {
    pub fn path(&self) -> (r: String)
        ensures
            r@ == "/projects/"@ + self.id@ + if self.force { "?force=true"@ } else { Seq::empty() },
    {
        let mut s = owned("/projects/");
        s.append(self.id.as_str());
        if self.force {
            s.append("?force=true");
        }
        s
    }
}

/// The project owning a working directory.
pub fn by_cwd_path(cwd: &str) -> (r: String)
    ensures
        r@ == "/projects/by-cwd?cwd="@ + enc_path(cwd@),
{
    let mut s = owned("/projects/by-cwd?cwd=");
    push_urlencoded(&mut s, cwd, true);
    s
}

/// `sdi project update` arguments.
#[derive(Debug, Clone)]
pub struct ProjectUpdateArgs {
    pub id: String,
    pub name: Option<String>,
    pub description: Option<String>,
    pub wiki_paths: Vec<String>,
}

/// A project patch: only the fields present change; `description:
/// Some(None)` clears the description.
#[derive(Debug, Clone)]
pub struct ProjectPatch {
    pub name: Option<String>,
    pub description: Option<Option<String>>,
    pub wiki_paths: Option<Vec<String>>,
}

impl ProjectUpdateArgs {
    /// The patch the arguments describe; an empty description clears it; at
    /// least one field must be given.
    pub fn patch(self) -> (r: Result<ProjectPatch, CliError>)
        ensures
            (self.name is None && self.description is None && self.wiki_paths@.len() == 0) ==> (r matches Err(e)
                && is_cli_error(
                e,
                "project update requires at least one of --name, --description, --wiki-path"@,
            )),
            !(self.name is None && self.description is None && self.wiki_paths@.len() == 0) ==> (r matches Ok(p)
                && ov(p.name) == ov(self.name) && match self.description {
                None => p.description is None,
                Some(d) => if d@.len() == 0 {
                    p.description == Some(None::<String>)
                } else {
                    p.description matches Some(Some(x)) && x@ == d@
                },
            } && if self.wiki_paths@.len() == 0 {
                p.wiki_paths is None
            } else {
                p.wiki_paths matches Some(w) && w@ == self.wiki_paths@
            }),
    {
        if self.name.is_none() && self.description.is_none() && self.wiki_paths.len() == 0 {
            return Err(cli_error(owned("project update requires at least one of --name, --description, --wiki-path")));
        }
        let description = match self.description {
            None => None,
            Some(d) => if d.unicode_len() == 0 {
                Some(None)
            } else {
                Some(Some(d))
            },
        };
        let wiki_paths = if self.wiki_paths.len() == 0 {
            None
        } else {
            Some(self.wiki_paths)
        };
        Ok(ProjectPatch { name: self.name, description, wiki_paths })
    }
}

/// `sdi plan update` arguments.
#[derive(Debug, Clone)]
pub struct PlanUpdateArgs {
    pub id: String,
    pub title: Option<String>,
    pub body: Option<String>,
}

impl PlanUpdateArgs {
    /// At least one of the fields must be given.
    pub fn check(&self) -> (r: Result<(), CliError>)
        ensures
            (self.title is None && self.body is None) ==> (r matches Err(e) && is_cli_error(
                e,
                "plan update requires at least one of --title or --body"@,
            )),
            !(self.title is None && self.body is None) ==> r is Ok,
    {
        if self.title.is_none() && self.body.is_none() {
            return Err(cli_error(owned("plan update requires at least one of --title or --body")));
        }
        Ok(())
    }
}

/// `sdi req update` arguments.
#[derive(Debug, Clone)]
pub struct RequirementUpdateArgs {
    pub id: String,
    pub title: Option<String>,
    pub body: Option<String>,
    pub source: Option<String>,
}

impl RequirementUpdateArgs {
    /// At least one of the fields must be given.
    pub fn check(&self) -> (r: Result<(), CliError>)
        ensures
            (self.title is None && self.body is None && self.source is None) ==> (r matches Err(e)
                && is_cli_error(e, "req update requires at least one of --title, --body, --source"@)),
            !(self.title is None && self.body is None && self.source is None) ==> r is Ok,
    {
        if self.title.is_none() && self.body.is_none() && self.source.is_none() {
            return Err(cli_error(owned("req update requires at least one of --title, --body, --source")));
        }
        Ok(())
    }
}

/// `sdi scenario update` arguments.
#[derive(Debug, Clone)]
pub struct ScenarioUpdateArgs {
    pub id: String,
    pub given: Option<String>,
    pub when_: Option<String>,
    pub then_: Option<String>,
}

impl ScenarioUpdateArgs {
    /// At least one of the fields must be given.
    pub fn check(&self) -> (r: Result<(), CliError>)
        ensures
            (self.given is None && self.when_ is None && self.then_ is None) ==> (r matches Err(e)
                && is_cli_error(e, "scenario update requires at least one of --given, --when, --then"@)),
            !(self.given is None && self.when_ is None && self.then_ is None) ==> r is Ok,
    {
        if self.given.is_none() && self.when_.is_none() && self.then_.is_none() {
            return Err(cli_error(owned("scenario update requires at least one of --given, --when, --then")));
        }
        Ok(())
    }
}

/// A field of a snapshot update: the new value when given, else the current
/// one, else `fallback`.
pub fn updated_field(given: Option<String>, current: Option<String>, fallback: &str) -> (r: String)
    ensures
        r@ == match given {
            Some(g) => g@,
            None => match current {
                Some(c) => c@,
                None => fallback@,
            },
        },
{
    match given {
        Some(g) => g,
        None => match current {
            Some(c) => c,
            None => owned(fallback),
        },
    }
}


/// `sdi decision rollback` arguments.
#[derive(Debug, Clone)]
pub struct DecisionRollbackArgs {
    pub id: String,
    pub short_code: String,
    pub title: String,
    pub body: String,
    pub reversal_plan: Option<String>,
    pub reversal_plan_from_file: Option<String>,
    pub blast_radius_score: Option<i32>,
    pub produced_via_pattern_id: Option<String>,
    pub agent_name: String,
}

/// Where the reversal plan of a rollback comes from.
#[derive(Debug, Clone)]
pub enum ReversalPlanSource {
    /// Given on the command line.
    Inline(String),
    /// The contents of the file at this path.
    File(String),
}

impl DecisionRollbackArgs {
    /// The inline reversal plan when given, else the file; one of the two is
    /// needed.
    pub fn reversal_plan_source(&self) -> (r: Result<ReversalPlanSource, CliError>)
        ensures
            match (self.reversal_plan, self.reversal_plan_from_file) {
                (Some(p), _) => r matches Ok(ReversalPlanSource::Inline(x)) && x@ == p@,
                (None, Some(f)) => r matches Ok(ReversalPlanSource::File(x)) && x@ == f@,
                (None, None) => r matches Err(e) && is_cli_error(
                    e,
                    "`sdi decision rollback` requires --reversal-plan or --reversal-plan-from-file"@,
                ),
            },
    {
        match &self.reversal_plan {
            Some(p) => Ok(ReversalPlanSource::Inline(p.clone())),
            None => match &self.reversal_plan_from_file {
                Some(f) => Ok(ReversalPlanSource::File(f.clone())),
                None => Err(
                    cli_error(owned("`sdi decision rollback` requires --reversal-plan or --reversal-plan-from-file")),
                ),
            },
        }
    }
}

/// The reversal plan a file holds: its text, trimmed.
pub fn file_reversal_plan(contents: &str) -> (r: String)
    ensures
        r@ == spec_trim(contents@),
{
    let v = chars_of(contents);
    let t = trim_chars(&v);
    let r = string_of(&t, 0, t.len());
    assert(r@ =~= t@);
    r
}

} // verus!
