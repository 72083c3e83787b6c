//! Knowledge entries and their visibility scope.
use vstd::prelude::*;
use crate::error::{DomainError, is_validation, validation};
use crate::text::{str_eq, owned, concat2, concat3};

use crate::ids::{Id, Timestamp};

verus! {

/// Only `rag` knowledge is exposed to agents.
#[derive(Debug, Clone, Copy, PartialEq, Eq, Structural)]
pub enum KnowledgeScope {
    Rag,
    Reference,
    Archive,
}

impl KnowledgeScope {
    /// Canonical wire name.
    pub open spec fn spec_name(self) -> Seq<char> {
        match self {
            KnowledgeScope::Rag => "rag"@,
            KnowledgeScope::Reference => "reference"@,
            KnowledgeScope::Archive => "archive"@,
        }
    }

    /// The value whose wire name is `s`, if any.
    pub open spec fn from_name(s: Seq<char>) -> Option<KnowledgeScope> {
        if s == "rag"@ {
            Some(KnowledgeScope::Rag)
        } else if s == "reference"@ {
            Some(KnowledgeScope::Reference)
        } else if s == "archive"@ {
            Some(KnowledgeScope::Archive)
        } else {
            None
        }
    }

    pub fn as_str(self) -> (r: &'static str)
        ensures
            r@ == self.spec_name(),
    {
        match self {
            KnowledgeScope::Rag => "rag",
            KnowledgeScope::Reference => "reference",
            KnowledgeScope::Archive => "archive",
        }
    }

    pub fn to_string(&self) -> (r: String)
        ensures
            r@ == self.spec_name(),
    {
        owned(self.as_str())
    }

    pub fn parse(s: &str) -> (r: Result<KnowledgeScope, DomainError>)
        ensures
            match r {
                Ok(k) => KnowledgeScope::from_name(s@) == Some(k),
                Err(e) => KnowledgeScope::from_name(s@) is None && is_validation(e, "unknown knowledge scope: "@ + s@),
            },
    {
        if str_eq(s, "rag") {
            Ok(KnowledgeScope::Rag)
        } else if str_eq(s, "reference") {
            Ok(KnowledgeScope::Reference)
        } else if str_eq(s, "archive") {
            Ok(KnowledgeScope::Archive)
        } else {
            Err(validation(concat2("unknown knowledge scope: ", s)))
        }
    }
}

impl core::str::FromStr for KnowledgeScope {
    type Err = DomainError;

    fn from_str(s: &str) -> (r: Result<KnowledgeScope, DomainError>)
        ensures
            match r {
                Ok(k) => KnowledgeScope::from_name(s@) == Some(k),
                Err(e) => KnowledgeScope::from_name(s@) is None && is_validation(e, "unknown knowledge scope: "@ + s@),
            },
    {
        KnowledgeScope::parse(s)
    }
}

impl core::default::Default for KnowledgeScope {
    fn default() -> (r: KnowledgeScope)
        ensures
            r == KnowledgeScope::Rag,
    {
        KnowledgeScope::Rag
    }
}

/// Every `KnowledgeScope` parses back from its own wire name, and a name that
/// parses to a value is exactly that value's wire name.
pub proof fn lemma_knowledge_scope_names(k: KnowledgeScope, s: Seq<char>)
    ensures
        KnowledgeScope::from_name(k.spec_name()) == Some(k),
        KnowledgeScope::from_name(s) == Some(k) ==> s == k.spec_name(),
{
    reveal_strlit("rag");
    reveal_strlit("reference");
    reveal_strlit("archive");
    assert("rag"@.len() == 3);
    assert("reference"@.len() == 9);
    assert("archive"@.len() == 7);
}

/// A knowledge entry.
#[derive(Debug, Clone)]
pub struct Knowledge {
    pub id: Id,
    pub project_id: Id,
    pub scope: KnowledgeScope,
    pub kind: String,
    pub title: String,
    pub body: String,
    pub tags: Vec<String>,
    pub source_ref: Option<String>,
    pub created_at: Timestamp,
    pub updated_at: Timestamp,
}


} // verus!
