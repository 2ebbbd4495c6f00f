//! The state of the journal as mathematics: five sequences of rows, in the
//! order in which the rows were written, and what it means for them to be
//! well formed.

use vstd::prelude::*;
use crate::records::{
    DecisionView, FeatureView, FileChangeView, SessionView, StepView, STAGE_COUNT, STATUS_ACTIVE,
};

verus! {

/// Whether a project passes the filter: no filter passes every project, and
/// a filter passes the project of exactly its name.
pub open spec fn project_passes(filter: Option<Seq<char>>, project: Seq<char>) -> bool {
    match filter {
        Some(wanted) => project == wanted,
        None => true,
    }
}

/// The steps of one session, told apart by its token.
pub open spec fn in_session(token: Seq<char>) -> spec_fn(StepView) -> bool {
    |s: StepView| s.session_id == token
}

/// Steps that carry the numbers 1, 2, 3, ... in the order in which they stand.
pub open spec fn numbered(steps: Seq<StepView>) -> bool {
    forall|k: int| 0 <= k < steps.len() ==> (#[trigger] steps[k]).step_number == k + 1
}

/// What holds of a single session row, whatever else is in the journal: the
/// rolled-up counts are counts, and a session that was never closed has no
/// end time, no summary, no counts, and is still active.
pub open spec fn session_row_wf(s: SessionView) -> bool {
    &&& 0 <= s.total_agents_spawned <= s.total_steps
    &&& s.ended_at is None ==> {
        &&& s.total_steps == 0
        &&& s.status == STATUS_ACTIVE@
        &&& s.summary is None
    }
}

/// What holds of a single feature row: only the fixed stages are ever marked.
pub open spec fn feature_row_wf(f: FeatureView) -> bool {
    forall|k: int| f.stage_completed.dom().contains(k) ==> 1 <= k <= STAGE_COUNT
}

/// The whole state of a journal.
#[verifier::ext_equal]
pub struct JournalView {
    pub sessions: Seq<SessionView>,
    pub steps: Seq<StepView>,
    pub features: Seq<FeatureView>,
    pub file_changes: Seq<FileChangeView>,
    pub decisions: Seq<DecisionView>,
}

impl JournalView {
    /// The journal in which nothing was recorded yet.
    pub open spec fn empty() -> JournalView {
        JournalView {
            sessions: Seq::empty(),
            steps: Seq::empty(),
            features: Seq::empty(),
            file_changes: Seq::empty(),
            decisions: Seq::empty(),
        }
    }

    /// Whether a session with this token was started.
    pub open spec fn has_session(self, token: Seq<char>) -> bool {
        exists|i: int| 0 <= i < self.sessions.len() && (#[trigger] self.sessions[i]).session_id == token
    }

    /// Whether a feature of this name is known.
    pub open spec fn has_feature(self, name: Seq<char>) -> bool {
        exists|i: int| 0 <= i < self.features.len() && (#[trigger] self.features[i]).feature_name == name
    }

    /// The steps recorded against one session, in the order of recording.
    pub open spec fn steps_of(self, token: Seq<char>) -> Seq<StepView> {
        self.steps.filter(in_session(token))
    }

    /// Sessions: row ids count up from 1, no token occurs twice, and each row
    /// is well formed.
    pub open spec fn sessions_wf(self) -> bool {
        &&& forall|i: int| 0 <= i < self.sessions.len() ==> (#[trigger] self.sessions[i]).id == i + 1
        &&& forall|i: int, j: int|
            0 <= i < j < self.sessions.len()
                ==> (#[trigger] self.sessions[i]).session_id
                    != (#[trigger] self.sessions[j]).session_id
        &&& forall|i: int| 0 <= i < self.sessions.len() ==> session_row_wf(#[trigger] self.sessions[i])
    }

    /// Steps: row ids count up from 1, each step belongs to a session that
    /// exists, and within each session the step numbers are 1, 2, 3, ...
    /// without a gap or a repeat.
    pub open spec fn steps_wf(self) -> bool {
        &&& forall|i: int| 0 <= i < self.steps.len() ==> (#[trigger] self.steps[i]).id == i + 1
        &&& forall|i: int|
            0 <= i < self.steps.len() ==> self.has_session((#[trigger] self.steps[i]).session_id)
        &&& forall|token: Seq<char>| numbered(#[trigger] self.steps_of(token))
    }

    /// Features: row ids count up from 1, no name occurs twice, and each row
    /// is well formed.
    pub open spec fn features_wf(self) -> bool {
        &&& forall|i: int| 0 <= i < self.features.len() ==> (#[trigger] self.features[i]).id == i + 1
        &&& forall|i: int, j: int|
            0 <= i < j < self.features.len()
                ==> (#[trigger] self.features[i]).feature_name
                    != (#[trigger] self.features[j]).feature_name
        &&& forall|i: int| 0 <= i < self.features.len() ==> feature_row_wf(#[trigger] self.features[i])
    }

    /// File changes: row ids count up from 1, and each change belongs to a
    /// session that exists.
    pub open spec fn file_changes_wf(self) -> bool {
        &&& forall|i: int|
            0 <= i < self.file_changes.len() ==> (#[trigger] self.file_changes[i]).id == i + 1
        &&& forall|i: int|
            0 <= i < self.file_changes.len() ==> self.has_session(
                (#[trigger] self.file_changes[i]).session_id,
            )
    }

    /// Decisions: row ids count up from 1, and each decision belongs to a
    /// session that exists.
    pub open spec fn decisions_wf(self) -> bool {
        &&& forall|i: int| 0 <= i < self.decisions.len() ==> (#[trigger] self.decisions[i]).id == i + 1
        &&& forall|i: int|
            0 <= i < self.decisions.len() ==> self.has_session(
                (#[trigger] self.decisions[i]).session_id,
            )
    }

    /// The invariant of the journal.
    pub open spec fn wf(self) -> bool {
        &&& self.sessions_wf()
        &&& self.steps_wf()
        &&& self.features_wf()
        &&& self.file_changes_wf()
        &&& self.decisions_wf()
    }
}

/// The steps stay well formed through a change that leaves them alone and
/// forgets no session.
pub proof fn lemma_steps_kept(before: JournalView, after: JournalView)
    requires
        before.steps_wf(),
        after.steps == before.steps,
        forall|token: Seq<char>| before.has_session(token) ==> after.has_session(token),
    ensures
        after.steps_wf(),
{
    assert forall|token: Seq<char>| numbered(#[trigger] after.steps_of(token)) by {
        assert(after.steps_of(token) == before.steps_of(token));
    }
    assert forall|i: int| 0 <= i < after.steps.len() implies after.has_session(
        (#[trigger] after.steps[i]).session_id,
    ) by {
        assert(before.has_session(before.steps[i].session_id));
    }
}

/// The file changes stay well formed through a change that leaves them
/// alone and forgets no session.
pub proof fn lemma_file_changes_kept(before: JournalView, after: JournalView)
    requires
        before.file_changes_wf(),
        after.file_changes == before.file_changes,
        forall|token: Seq<char>| before.has_session(token) ==> after.has_session(token),
    ensures
        after.file_changes_wf(),
{
    assert forall|i: int| 0 <= i < after.file_changes.len() implies after.has_session(
        (#[trigger] after.file_changes[i]).session_id,
    ) by {
        assert(before.has_session(before.file_changes[i].session_id));
    }
}

/// The decisions stay well formed through a change that leaves them alone
/// and forgets no session.
pub proof fn lemma_decisions_kept(before: JournalView, after: JournalView)
    requires
        before.decisions_wf(),
        after.decisions == before.decisions,
        forall|token: Seq<char>| before.has_session(token) ==> after.has_session(token),
    ensures
        after.decisions_wf(),
{
    assert forall|i: int| 0 <= i < after.decisions.len() implies after.has_session(
        (#[trigger] after.decisions[i]).session_id,
    ) by {
        assert(before.has_session(before.decisions[i].session_id));
    }
}

/// The three stores that refer to sessions stay well formed through a change
/// that leaves them alone and forgets no session.
pub proof fn lemma_links_kept(before: JournalView, after: JournalView)
    requires
        before.wf(),
        after.steps == before.steps,
        after.file_changes == before.file_changes,
        after.decisions == before.decisions,
        forall|token: Seq<char>| before.has_session(token) ==> after.has_session(token),
    ensures
        after.steps_wf(),
        after.file_changes_wf(),
        after.decisions_wf(),
{
    lemma_steps_kept(before, after);
    lemma_file_changes_kept(before, after);
    lemma_decisions_kept(before, after);
}

/// The empty journal is well formed.
pub proof fn lemma_empty_wf()
    ensures
        JournalView::empty().wf(),
{
    let j = JournalView::empty();
    reveal(Seq::filter);
    assert forall|token: Seq<char>| numbered(#[trigger] j.steps_of(token)) by {
        assert(j.steps.filter(in_session(token)).len() == 0);
    }
}

} // verus!
