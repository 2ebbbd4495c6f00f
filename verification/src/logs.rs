//! The file change log and the decision log: rows are appended to a session
//! and never changed afterwards.

use vstd::prelude::*;
use crate::clock::now_ms;
use crate::error::JournalError;
use crate::journal::Journal;
use crate::model::{
    lemma_decisions_kept, lemma_file_changes_kept, lemma_steps_kept, JournalView,
};
use crate::records::{
    int_of, owned_text, str_of, Decision, DecisionView, FileChange, FileChangeView,
    DECISION_IMPLEMENTATION,
};

verus! {

impl JournalView {
    /// Why a file change cannot be recorded against this token, if it
    /// cannot: no session has the token, or else the store has no row id
    /// left.
    pub open spec fn record_file_change_refused(self, token: Seq<char>) -> Option<JournalError> {
        if !self.has_session(token) {
            Some(JournalError::UnknownSession)
        } else if self.file_changes.len() >= i64::MAX {
            Some(JournalError::StoreFull)
        } else {
            None
        }
    }

    /// The row of a file change that is recorded. The step it names, if it
    /// names one, need not exist.
    pub open spec fn new_file_change(
        self,
        token: Seq<char>,
        file_path: Seq<char>,
        change_type: Seq<char>,
        step_id: Option<int>,
        description: Option<Seq<char>>,
        now: int,
    ) -> FileChangeView {
        FileChangeView {
            id: self.file_changes.len() as int + 1,
            session_id: token,
            step_id,
            timestamp: now,
            file_path,
            change_type,
            description,
        }
    }

    /// The journal after a file change was recorded.
    pub open spec fn record_file_change(self, change: FileChangeView) -> JournalView {
        JournalView { file_changes: self.file_changes.push(change), ..self }
    }

    /// Why a decision cannot be recorded against this token, if it cannot:
    /// no session has the token, or else the store has no row id left.
    pub open spec fn record_decision_refused(self, token: Seq<char>) -> Option<JournalError> {
        if !self.has_session(token) {
            Some(JournalError::UnknownSession)
        } else if self.decisions.len() >= i64::MAX {
            Some(JournalError::StoreFull)
        } else {
            None
        }
    }

    /// The row of a decision that is recorded. A decision type that is left
    /// out is "implementation"; the feature it names, if it names one, need
    /// not exist.
    pub open spec fn new_decision(
        self,
        token: Seq<char>,
        question: Seq<char>,
        choice: Seq<char>,
        decision_type: Option<Seq<char>>,
        feature_name: Option<Seq<char>>,
        rationale: Option<Seq<char>>,
        now: int,
    ) -> DecisionView {
        DecisionView {
            id: self.decisions.len() as int + 1,
            session_id: token,
            feature_name,
            timestamp: now,
            decision_type: match decision_type {
                Some(t) => t,
                None => DECISION_IMPLEMENTATION@,
            },
            question,
            choice,
            rationale,
        }
    }

    /// The journal after a decision was recorded.
    pub open spec fn record_decision(self, decision: DecisionView) -> JournalView {
        JournalView { decisions: self.decisions.push(decision), ..self }
    }
}

/// Recording a file change against a session that exists, under the next
/// row id, keeps the journal well formed.
pub proof fn lemma_record_file_change_wf(j: JournalView, change: FileChangeView)
    requires
        j.wf(),
        j.has_session(change.session_id),
        change.id == j.file_changes.len() + 1,
    ensures
        j.record_file_change(change).wf(),
{
    let after = j.record_file_change(change);
    assert forall|i: int| 0 <= i < after.file_changes.len() implies after.has_session(
        (#[trigger] after.file_changes[i]).session_id,
    ) by {
        if i < j.file_changes.len() {
            assert(j.has_session(j.file_changes[i].session_id));
        }
    }
    lemma_steps_kept(j, after);
    lemma_decisions_kept(j, after);
}

/// Recording a decision against a session that exists, under the next row
/// id, keeps the journal well formed.
pub proof fn lemma_record_decision_wf(j: JournalView, decision: DecisionView)
    requires
        j.wf(),
        j.has_session(decision.session_id),
        decision.id == j.decisions.len() + 1,
    ensures
        j.record_decision(decision).wf(),
{
    let after = j.record_decision(decision);
    assert forall|i: int| 0 <= i < after.decisions.len() implies after.has_session(
        (#[trigger] after.decisions[i]).session_id,
    ) by {
        if i < j.decisions.len() {
            assert(j.has_session(j.decisions[i].session_id));
        }
    }
    lemma_steps_kept(j, after);
    lemma_file_changes_kept(j, after);
}

impl Journal {
    /// Records a change to a file against a session at a given time and
    /// returns the row id of the change.
    ///
    /// Fails when no session has this token, and when the store has no row
    /// id left.
    pub fn record_file_change_at(
        &mut self,
        session_id: &str,
        file_path: &str,
        change_type: &str,
        step_id: Option<i64>,
        description: Option<&str>,
        now: i64,
    ) -> (outcome: Result<i64, JournalError>)
        requires
            old(self).wf(),
        ensures
            final(self).wf(),
            outcome is Ok <==> old(self)@.record_file_change_refused(session_id@) is None,
            outcome is Err ==> {
                &&& Some(outcome->Err_0) == old(self)@.record_file_change_refused(session_id@)
                &&& final(self)@ == old(self)@
            },
            outcome is Ok ==> {
                &&& final(self)@ == old(self)@.record_file_change(
                    old(self)@.new_file_change(
                        session_id@,
                        file_path@,
                        change_type@,
                        int_of(step_id),
                        str_of(description),
                        now as int,
                    ),
                )
                &&& outcome->Ok_0 == old(self)@.file_changes.len() + 1
            },
    {
        let token = session_id.to_owned();
        if self.find_session(&token).is_none() {
            return Err(JournalError::UnknownSession);
        }
        let n: usize = self.file_changes.len();
        if n as u64 >= i64::MAX as u64 {
            return Err(JournalError::StoreFull);
        }
        let id: i64 = n as i64 + 1;
        let row = FileChange {
            id,
            session_id: token,
            step_id,
            timestamp: now,
            file_path: file_path.to_owned(),
            change_type: change_type.to_owned(),
            description: owned_text(description),
        };
        proof {
            lemma_record_file_change_wf(self@, row@);
        }
        self.file_changes.push(row);
        proof {
            assert(self@.file_changes =~= old(self)@.file_changes.push(row@));
        }
        Ok(id)
    }

    /// Records a change to a file against a session now:
    /// [`Journal::record_file_change_at`] at the time the clock shows.
    pub fn record_file_change(
        &mut self,
        session_id: &str,
        file_path: &str,
        change_type: &str,
        step_id: Option<i64>,
        description: Option<&str>,
    ) -> (outcome: Result<i64, JournalError>)
        requires
            old(self).wf(),
        ensures
            final(self).wf(),
            outcome is Ok <==> old(self)@.record_file_change_refused(session_id@) is None,
            outcome is Err ==> {
                &&& Some(outcome->Err_0) == old(self)@.record_file_change_refused(session_id@)
                &&& final(self)@ == old(self)@
            },
            outcome is Ok ==> {
                &&& exists|now: int|
                    final(self)@ == old(self)@.record_file_change(
                        #[trigger] old(self)@.new_file_change(
                            session_id@,
                            file_path@,
                            change_type@,
                            int_of(step_id),
                            str_of(description),
                            now,
                        ),
                    )
                &&& outcome->Ok_0 == old(self)@.file_changes.len() + 1
            },
    {
        let now = now_ms();
        self.record_file_change_at(session_id, file_path, change_type, step_id, description, now)
    }

    /// Records a decision against a session at a given time and returns the
    /// row id of the decision. A decision type that is left out is
    /// "implementation".
    ///
    /// Fails when no session has this token, and when the store has no row
    /// id left.
    pub fn record_decision_at(
        &mut self,
        session_id: &str,
        question: &str,
        choice: &str,
        decision_type: Option<&str>,
        feature_name: Option<&str>,
        rationale: Option<&str>,
        now: i64,
    ) -> (outcome: Result<i64, JournalError>)
        requires
            old(self).wf(),
        ensures
            final(self).wf(),
            outcome is Ok <==> old(self)@.record_decision_refused(session_id@) is None,
            outcome is Err ==> {
                &&& Some(outcome->Err_0) == old(self)@.record_decision_refused(session_id@)
                &&& final(self)@ == old(self)@
            },
            outcome is Ok ==> {
                &&& final(self)@ == old(self)@.record_decision(
                    old(self)@.new_decision(
                        session_id@,
                        question@,
                        choice@,
                        str_of(decision_type),
                        str_of(feature_name),
                        str_of(rationale),
                        now as int,
                    ),
                )
                &&& outcome->Ok_0 == old(self)@.decisions.len() + 1
            },
    {
        let token = session_id.to_owned();
        if self.find_session(&token).is_none() {
            return Err(JournalError::UnknownSession);
        }
        let n: usize = self.decisions.len();
        if n as u64 >= i64::MAX as u64 {
            return Err(JournalError::StoreFull);
        }
        let id: i64 = n as i64 + 1;
        let kind = match decision_type {
            Some(text) => text.to_owned(),
            None => DECISION_IMPLEMENTATION.to_owned(),
        };
        let row = Decision {
            id,
            session_id: token,
            feature_name: owned_text(feature_name),
            timestamp: now,
            decision_type: kind,
            question: question.to_owned(),
            choice: choice.to_owned(),
            rationale: owned_text(rationale),
        };
        proof {
            lemma_record_decision_wf(self@, row@);
        }
        self.decisions.push(row);
        proof {
            assert(self@.decisions =~= old(self)@.decisions.push(row@));
        }
        Ok(id)
    }

    /// Records a decision against a session now:
    /// [`Journal::record_decision_at`] at the time the clock shows.
    pub fn record_decision(
        &mut self,
        session_id: &str,
        question: &str,
        choice: &str,
        decision_type: Option<&str>,
        feature_name: Option<&str>,
        rationale: Option<&str>,
    ) -> (outcome: Result<i64, JournalError>)
        requires
            old(self).wf(),
        ensures
            final(self).wf(),
            outcome is Ok <==> old(self)@.record_decision_refused(session_id@) is None,
            outcome is Err ==> {
                &&& Some(outcome->Err_0) == old(self)@.record_decision_refused(session_id@)
                &&& final(self)@ == old(self)@
            },
            outcome is Ok ==> {
                &&& exists|now: int|
                    final(self)@ == old(self)@.record_decision(
                        #[trigger] old(self)@.new_decision(
                            session_id@,
                            question@,
                            choice@,
                            str_of(decision_type),
                            str_of(feature_name),
                            str_of(rationale),
                            now,
                        ),
                    )
                &&& outcome->Ok_0 == old(self)@.decisions.len() + 1
            },
    {
        let now = now_ms();
        self.record_decision_at(
            session_id,
            question,
            choice,
            decision_type,
            feature_name,
            rationale,
            now,
        )
    }
}

} // verus!
