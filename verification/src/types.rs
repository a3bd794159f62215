//! Shared record types.
use vstd::prelude::*;

use crate::text::{opt_view, strs};

verus! {

/// What the language model proposes for an inbox item.
#[derive(Debug)]
pub struct Enrichment {
    pub planned_actions: Vec<String>,
    pub clarifying_questions: Vec<String>,
    pub next_step: String,
}

/// The mathematical value of an [`Enrichment`].
pub struct EnrichmentView {
    pub planned_actions: Seq<Seq<char>>,
    pub clarifying_questions: Seq<Seq<char>>,
    pub next_step: Seq<char>,
}

impl View for Enrichment {
    type V = EnrichmentView;

    open spec fn view(&self) -> EnrichmentView {
        EnrichmentView {
            planned_actions: strs(self.planned_actions@),
            clarifying_questions: strs(self.clarifying_questions@),
            next_step: self.next_step@,
        }
    }
}

/// The project part of a project classification: its kind (`existing`,
/// `new` or `none`) and its name.
#[derive(Debug)]
pub struct ProjectInfo {
    pub kind: String,
    pub name: Option<String>,
}

/// The mathematical value of a [`ProjectInfo`].
pub struct ProjectInfoView {
    pub kind: Seq<char>,
    pub name: Option<Seq<char>>,
}

impl View for ProjectInfo {
    type V = ProjectInfoView;

    open spec fn view(&self) -> ProjectInfoView {
        ProjectInfoView { kind: self.kind@, name: opt_view(self.name) }
    }
}

/// Result of processing a single inbox item.
#[derive(Debug)]
pub struct ItemResult {
    pub source_file: String,
    pub project_name: Option<String>,
    pub action_type: String,
    pub exec_status: String,
    pub enriched: bool,
    pub failed: bool,
    pub pr_url: Option<String>,
}

} // verus!
