//! The journal itself: the five stores, held in memory in the order in which
//! their rows were written.

use vstd::prelude::*;
use crate::model::{lemma_empty_wf, JournalView};
use crate::records::{Decision, Feature, FileChange, Session, Step};

verus! {

/// The five stores of the journal. A journal is made empty and changes only
/// through its operations, each of which keeps it well formed.
pub struct Journal {
    pub(crate) sessions: Vec<Session>,
    pub(crate) steps: Vec<Step>,
    pub(crate) features: Vec<Feature>,
    pub(crate) file_changes: Vec<FileChange>,
    pub(crate) decisions: Vec<Decision>,
}

impl View for Journal {
    type V = JournalView;

    open(crate) spec fn view(&self) -> JournalView {
        JournalView {
            sessions: self.sessions@.map_values(|r: Session| r@),
            steps: self.steps@.map_values(|r: Step| r@),
            features: self.features@.map_values(|r: Feature| r@),
            file_changes: self.file_changes@.map_values(|r: FileChange| r@),
            decisions: self.decisions@.map_values(|r: Decision| r@),
        }
    }
}

impl Journal {
    /// Whether the journal is well formed. Every journal that this library
    /// hands out is.
    pub open spec fn wf(&self) -> bool {
        self@.wf()
    }

    /// A journal in which nothing was recorded yet.
    pub fn new() -> (journal: Journal)
        ensures
            journal.wf(),
            journal@ == JournalView::empty(),
    {
        let journal = Journal {
            sessions: Vec::new(),
            steps: Vec::new(),
            features: Vec::new(),
            file_changes: Vec::new(),
            decisions: Vec::new(),
        };
        proof {
            lemma_empty_wf();
            assert(journal@ =~= JournalView::empty());
        }
        journal
    }

    /// The sessions, in the order in which they were started.
    pub fn sessions(&self) -> (rows: &Vec<Session>)
        ensures
            rows@.map_values(|r: Session| r@) == self@.sessions,
    {
        &self.sessions
    }

    /// The steps of all sessions, in the order in which they were recorded.
    pub fn steps(&self) -> (rows: &Vec<Step>)
        ensures
            rows@.map_values(|r: Step| r@) == self@.steps,
    {
        &self.steps
    }

    /// The features, in the order in which they were first referenced.
    pub fn features(&self) -> (rows: &Vec<Feature>)
        ensures
            rows@.map_values(|r: Feature| r@) == self@.features,
    {
        &self.features
    }

    /// The file changes, in the order in which they were recorded.
    pub fn file_changes(&self) -> (rows: &Vec<FileChange>)
        ensures
            rows@.map_values(|r: FileChange| r@) == self@.file_changes,
    {
        &self.file_changes
    }

    /// The decisions, in the order in which they were recorded.
    pub fn decisions(&self) -> (rows: &Vec<Decision>)
        ensures
            rows@.map_values(|r: Decision| r@) == self@.decisions,
    {
        &self.decisions
    }
}

} // verus!
