//! Comment anchors given as `kind=ID`.
use vstd::prelude::*;
use crate::cli::{CliError, cli_error, is_cli_error};
use crate::text::{chars_of, split_once_chars, spec_split_once, string_of, str_eq, owned, concat2};

verus! {

/// The anchor kinds a comment may name.
pub open spec fn is_anchor_kind(k: Seq<char>) -> bool {
    k == "plan"@ || k == "task"@ || k == "scenario"@ || k == "round"@
}

/// How `kind=ID` is read: the kind and id, or the usage error.
pub open spec fn spec_parse_anchor(spec: Seq<char>) -> Result<(Seq<char>, Seq<char>), Seq<char>> {
    match spec_split_once(spec, '=') {
        None => Err("--on must be kind=ID, got: "@ + spec),
        Some((kind, id)) => if is_anchor_kind(kind) {
            Ok((kind, id))
        } else {
            Err("anchor kind must be plan|task|scenario|round, got: "@ + kind)
        },
    }
}

/// Split `kind=ID` at the first `=`; the kind must be plan, task, scenario or
/// round.
pub fn parse_anchor(spec: &str) -> (r: Result<(String, String), CliError>)
    ensures
        match spec_parse_anchor(spec@) {
            Ok((k, i)) => r matches Ok((a, b)) && a@ == k && b@ == i,
            Err(m) => r matches Err(e) && is_cli_error(e, m),
        },
{
    let v = chars_of(spec);
    match split_once_chars(&v, '=') {
        None => Err(cli_error(concat2("--on must be kind=ID, got: ", spec))),
        Some((k, i)) => {
            let kind = string_of(&k, 0, k.len());
            let id = string_of(&i, 0, i.len());
            assert(kind@ =~= k@);
            assert(id@ =~= i@);
            if str_eq(kind.as_str(), "plan") || str_eq(kind.as_str(), "task") || str_eq(kind.as_str(), "scenario")
                || str_eq(kind.as_str(), "round") {
                Ok((kind, id))
            } else {
                Err(cli_error(concat2("anchor kind must be plan|task|scenario|round, got: ", kind.as_str())))
            }
        },
    }
}

/// `sdi comment create` arguments.
#[derive(Debug, Clone)]
pub struct CommentCreateArgs {
    pub project_id: String,
    pub author: String,
    pub on: String,
    pub body: String,
}

impl CommentCreateArgs {
    /// The anchor field of the new comment (`<kind>_id`) and its value.
    pub fn anchor_field(&self) -> (r: Result<(String, String), CliError>)
        ensures
            match spec_parse_anchor(self.on@) {
                Ok((k, i)) => r matches Ok((a, b)) && a@ == k + "_id"@ && b@ == i,
                Err(m) => r matches Err(e) && is_cli_error(e, m),
            },
    {
        let (kind, id) = parse_anchor(self.on.as_str())?;
        Ok((kind.concat("_id"), id))
    }
}

/// `sdi comment list` arguments.
#[derive(Debug, Clone)]
pub struct CommentListArgs {
    pub on: Option<String>,
    pub project_id: Option<String>,
}

impl CommentListArgs {
    /// Comments of one anchor, else of a project; one of the two is needed.
    pub fn path(&self) -> (r: Result<String, CliError>)
        ensures
            match self.on {
                Some(on) => match spec_parse_anchor(on@) {
                    Ok((k, i)) => r matches Ok(p) && p@ == "/comments?"@ + k + "_id="@ + i,
                    Err(m) => r matches Err(e) && is_cli_error(e, m),
                },
                None => match self.project_id {
                    Some(pid) => r matches Ok(p) && p@ == "/comments?project_id="@ + pid@,
                    None => r matches Err(e) && is_cli_error(e, "--on or --project-id required"@),
                },
            },
    {
        if let Some(on) = &self.on {
            let (kind, id) = parse_anchor(on.as_str())?;
            let mut p = owned("/comments?");
            p.append(kind.as_str());
            p.append("_id=");
            p.append(id.as_str());
            return Ok(p);
        }
        if let Some(pid) = &self.project_id {
            return Ok(concat2("/comments?project_id=", pid.as_str()));
        }
        Err(cli_error(owned("--on or --project-id required")))
    }
}

} // verus!
