//! Scenario-driven implementation: the domain model (plans, scenarios,
//! rounds, tasks, decisions, autonomy policies, collaboration patterns) and
//! the request-building logic of the `sdi` command line.
use vstd::prelude::*;

pub mod text;
pub mod lexical;
pub mod url;
pub mod error;
pub mod json;
pub mod ids;
pub mod autonomy_policy;
pub mod agent_note;
pub mod agent_spec;
pub mod collab;
pub mod decision;
pub mod decision_question;
pub mod disruption;
pub mod knowledge;
pub mod pattern;
pub mod plan;
pub mod round;
pub mod run;
pub mod scenario;
pub mod ssot;
pub mod task;
pub mod usage;
pub mod user_flow;
pub mod requirement;
pub mod project;
pub mod cli;
pub mod commands;
pub mod daemon;
pub mod doctor;
pub mod http;
