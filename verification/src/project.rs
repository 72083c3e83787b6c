//! Projects: the multi-project root, anchored to working directories.
use vstd::prelude::*;
use crate::ids::{Id, Timestamp};
use crate::text::owned;

verus! {

/// Wiki roots of a project that records none: a single `docs` entry.
pub fn default_wiki_paths() -> (r: Vec<String>)
    ensures
        r@.len() == 1,
        r@[0]@ == "docs"@,
{
    let mut r: Vec<String> = Vec::new();
    r.push(owned("docs"));
    r
}

/// Projects are enabled unless a user disables them.
pub fn default_enabled() -> (r: bool)
    ensures
        r,
{
    true
}

/// A project.
#[derive(Debug, Clone)]
pub struct Project {
    pub id: Id,
    pub key: String,
    pub name: String,
    pub slug: String,
    pub cwds: Vec<String>,
    pub description: Option<String>,
    pub enabled: bool,
    pub wiki_paths: Vec<String>,
    pub created_at: Timestamp,
    pub updated_at: Timestamp,
}

} // verus!
