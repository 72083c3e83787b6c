//! Decision questions: blocking questions with explained options, answered by
//! picking an option or giving free text.
use vstd::prelude::*;
use crate::error::{DomainError, is_validation, validation};
use crate::text::{str_eq, owned, concat2, concat3};

use crate::ids::{Id, Timestamp};
use crate::text::{spec_is_blank, is_blank};

verus! {

/// `fact`: one option survives; `preference`: the user chooses.
#[derive(Debug, Clone, Copy, PartialEq, Eq, Structural)]
pub enum QuestionType {
    Fact,
    Preference,
}

impl QuestionType {
    /// Canonical wire name.
    pub open spec fn spec_name(self) -> Seq<char> {
        match self {
            QuestionType::Fact => "fact"@,
            QuestionType::Preference => "preference"@,
        }
    }

    /// The value whose wire name is `s`, if any.
    pub open spec fn from_name(s: Seq<char>) -> Option<QuestionType> {
        if s == "fact"@ {
            Some(QuestionType::Fact)
        } else if s == "preference"@ {
            Some(QuestionType::Preference)
        } else {
            None
        }
    }

    pub fn as_str(self) -> (r: &'static str)
        ensures
            r@ == self.spec_name(),
    {
        match self {
            QuestionType::Fact => "fact",
            QuestionType::Preference => "preference",
        }
    }

    pub fn to_string(&self) -> (r: String)
        ensures
            r@ == self.spec_name(),
    {
        owned(self.as_str())
    }

    pub fn parse(s: &str) -> (r: Result<QuestionType, DomainError>)
        ensures
            match r {
                Ok(k) => QuestionType::from_name(s@) == Some(k),
                Err(e) => QuestionType::from_name(s@) is None && is_validation(e, "unknown question type: "@ + s@),
            },
    {
        if str_eq(s, "fact") {
            Ok(QuestionType::Fact)
        } else if str_eq(s, "preference") {
            Ok(QuestionType::Preference)
        } else {
            Err(validation(concat2("unknown question type: ", s)))
        }
    }
}

impl core::str::FromStr for QuestionType {
    type Err = DomainError;

    fn from_str(s: &str) -> (r: Result<QuestionType, DomainError>)
        ensures
            match r {
                Ok(k) => QuestionType::from_name(s@) == Some(k),
                Err(e) => QuestionType::from_name(s@) is None && is_validation(e, "unknown question type: "@ + s@),
            },
    {
        QuestionType::parse(s)
    }
}

/// Every `QuestionType` parses back from its own wire name, and a name that
/// parses to a value is exactly that value's wire name.
pub proof fn lemma_question_type_names(k: QuestionType, s: Seq<char>)
    ensures
        QuestionType::from_name(k.spec_name()) == Some(k),
        QuestionType::from_name(s) == Some(k) ==> s == k.spec_name(),
{
    reveal_strlit("fact");
    reveal_strlit("preference");
    assert("fact"@.len() == 4);
    assert("preference"@.len() == 10);
}

/// Status of a decision question.
#[derive(Debug, Clone, Copy, PartialEq, Eq, Structural)]
pub enum QuestionStatus {
    Open,
    Answered,
    AutoDecided,
}

impl QuestionStatus {
    /// Canonical wire name.
    pub open spec fn spec_name(self) -> Seq<char> {
        match self {
            QuestionStatus::Open => "open"@,
            QuestionStatus::Answered => "answered"@,
            QuestionStatus::AutoDecided => "auto_decided"@,
        }
    }

    /// The value whose wire name is `s`, if any.
    pub open spec fn from_name(s: Seq<char>) -> Option<QuestionStatus> {
        if s == "open"@ {
            Some(QuestionStatus::Open)
        } else if s == "answered"@ {
            Some(QuestionStatus::Answered)
        } else if s == "auto_decided"@ {
            Some(QuestionStatus::AutoDecided)
        } else {
            None
        }
    }

    pub fn as_str(self) -> (r: &'static str)
        ensures
            r@ == self.spec_name(),
    {
        match self {
            QuestionStatus::Open => "open",
            QuestionStatus::Answered => "answered",
            QuestionStatus::AutoDecided => "auto_decided",
        }
    }

    pub fn to_string(&self) -> (r: String)
        ensures
            r@ == self.spec_name(),
    {
        owned(self.as_str())
    }

    pub fn parse(s: &str) -> (r: Result<QuestionStatus, DomainError>)
        ensures
            match r {
                Ok(k) => QuestionStatus::from_name(s@) == Some(k),
                Err(e) => QuestionStatus::from_name(s@) is None && is_validation(e, "unknown question status: "@ + s@),
            },
    {
        if str_eq(s, "open") {
            Ok(QuestionStatus::Open)
        } else if str_eq(s, "answered") {
            Ok(QuestionStatus::Answered)
        } else if str_eq(s, "auto_decided") {
            Ok(QuestionStatus::AutoDecided)
        } else {
            Err(validation(concat2("unknown question status: ", s)))
        }
    }
}

impl core::str::FromStr for QuestionStatus {
    type Err = DomainError;

    fn from_str(s: &str) -> (r: Result<QuestionStatus, DomainError>)
        ensures
            match r {
                Ok(k) => QuestionStatus::from_name(s@) == Some(k),
                Err(e) => QuestionStatus::from_name(s@) is None && is_validation(e, "unknown question status: "@ + s@),
            },
    {
        QuestionStatus::parse(s)
    }
}

/// Every `QuestionStatus` parses back from its own wire name, and a name that
/// parses to a value is exactly that value's wire name.
pub proof fn lemma_question_status_names(k: QuestionStatus, s: Seq<char>)
    ensures
        QuestionStatus::from_name(k.spec_name()) == Some(k),
        QuestionStatus::from_name(s) == Some(k) ==> s == k.spec_name(),
{
    reveal_strlit("open");
    reveal_strlit("answered");
    reveal_strlit("auto_decided");
    assert("open"@.len() == 4);
    assert("answered"@.len() == 8);
    assert("auto_decided"@.len() == 12);
}

/// A blocking decision question.
#[derive(Debug, Clone)]
pub struct DecisionQuestion {
    pub id: Id,
    pub project_id: Id,
    pub short_code: String,
    pub scope_ref: Option<String>,
    pub qtype: QuestionType,
    pub context_md: String,
    pub parent_question_id: Option<String>,
    pub status: QuestionStatus,
    pub created_at: Timestamp,
    pub updated_at: Timestamp,
}

/// One explained option of a question.
#[derive(Debug, Clone)]
pub struct QuestionOption {
    pub id: Id,
    pub question_id: Id,
    pub label: String,
    pub body_md: String,
    pub rationale_md: String,
    pub is_llm_recommended: bool,
    pub idx: i64,
    pub created_at: Timestamp,
}

/// An answer: a chosen option or free text, and what it produced.
#[derive(Debug, Clone)]
pub struct QuestionAnswer {
    pub id: Id,
    pub question_id: Id,
    pub chosen_option_id: Option<String>,
    pub free_text: Option<String>,
    pub answered_by: String,
    pub generated_refs_json: String,
    pub created_at: Timestamp,
}

/// Who answered, when the row does not say.
pub fn default_answered_by() -> (r: String)
    ensures
        r@ == "user"@,
{
    owned("user")
}

/// An empty JSON array, the default of list-valued text columns.
pub fn default_json_array() -> (r: String)
    ensures
        r@ == "[]"@,
{
    owned("[]")
}

/// `o` holds text that is not blank.
pub open spec fn has_text(o: Option<String>) -> bool {
    o matches Some(s) && !spec_is_blank(s@)
}

impl DecisionQuestion {
    /// The question stem must not be blank.
    pub fn validate_context(context_md: &str) -> (r: Result<(), DomainError>)
        ensures
            !spec_is_blank(context_md@) ==> r is Ok,
            spec_is_blank(context_md@) ==> (r matches Err(e) && is_validation(
                e,
                "decision question context_md must be non-empty"@,
            )),
    {
        if is_blank(context_md) {
            return Err(validation(owned("decision question context_md must be non-empty")));
        }
        Ok(())
    }
}

impl QuestionAnswer {
    /// An answer picks an option or gives free text.
    pub fn validate(chosen_option_id: &Option<String>, free_text: &Option<String>) -> (r: Result<
        (),
        DomainError,
    >)
        ensures
            has_text(*chosen_option_id) || has_text(*free_text) ==> r is Ok,
            !(has_text(*chosen_option_id) || has_text(*free_text)) ==> (r matches Err(e)
                && is_validation(e, "answer must pick an option or provide free_text (+@)"@)),
    {
        let has_choice = match chosen_option_id {
            Some(s) => !is_blank(s.as_str()),
            None => false,
        };
        let has_free = match free_text {
            Some(s) => !is_blank(s.as_str()),
            None => false,
        };
        if !has_choice && !has_free {
            return Err(validation(owned("answer must pick an option or provide free_text (+@)")));
        }
        Ok(())
    }
}


} // verus!
