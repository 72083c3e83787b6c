//! Project-scoped read-only views.
use vstd::prelude::*;
use crate::cli::enc_path;
use crate::text::owned;
use crate::url::push_urlencoded;

verus! {

/// The query part that names the working directory, when one is used.
pub open spec fn cwd_part(cwd: Option<Seq<char>>, project: Option<Seq<char>>, current_dir: Seq<char>) -> Seq<char> {
    match cwd {
        Some(c) => "?cwd="@ + enc_path(c),
        None => if project is None {
            "?cwd="@ + enc_path(current_dir)
        } else {
            Seq::empty()
        },
    }
}

/// The query part that names the project explicitly.
pub open spec fn project_part(cwd: Option<Seq<char>>, project: Option<Seq<char>>) -> Seq<char> {
    match project {
        Some(p) => (if cwd is Some { "&"@ } else { "?"@ }) + "project="@ + p,
        None => Seq::empty(),
    }
}

pub open spec fn sv(o: Option<&str>) -> Option<Seq<char>> {
    match o {
        Some(s) => Some(s@),
        None => None,
    }
}

/// The dashboard request for a selector: `cwd=` when a directory is given,
/// or when nothing is given (then the current directory), and `project=` for
/// an explicit id or key.
pub fn build_dashboard_path(base: &str, cwd: Option<&str>, project: Option<&str>, current_dir: &str) -> (r: String)
    ensures
        r@ == base@ + cwd_part(sv(cwd), sv(project), current_dir@) + project_part(sv(cwd), sv(project)),
{
    let mut path = owned(base);
    let mut amp = false;
    match cwd {
        Some(c) => {
            path.append("?cwd=");
            push_urlencoded(&mut path, c, true);
            amp = true;
        },
        None => {
            if project.is_none() {
                path.append("?cwd=");
                push_urlencoded(&mut path, current_dir, true);
                amp = true;
            }
        },
    }
    if let Some(p) = project {
        if amp {
            path.append("&");
        } else {
            path.append("?");
        }
        path.append("project=");
        path.append(p);
    }
    path
}

} // verus!
