//! The step ledger: steps are appended to a session, and each one gets the
//! next number of that session.

use vstd::prelude::*;
use crate::clock::now_ms;
use crate::error::JournalError;
use crate::journal::Journal;
use crate::filters::lemma_filter_push;
use crate::model::{
    in_session, lemma_decisions_kept, lemma_file_changes_kept, numbered, JournalView,
};
use crate::records::{int_of, owned_text, str_of, Step, StepView};

verus! {

/// The greatest step number among some steps, 0 if there are none.
pub open spec fn max_step_number(steps: Seq<StepView>) -> int
    decreases steps.len(),
{
    if steps.len() == 0 {
        0
    } else {
        let before = max_step_number(steps.drop_last());
        if steps.last().step_number > before {
            steps.last().step_number
        } else {
            before
        }
    }
}

impl JournalView {
    /// The number that the next step of a session gets: one more than the
    /// greatest number among the steps it has.
    pub open spec fn next_step_number(self, token: Seq<char>) -> int {
        max_step_number(self.steps_of(token)) + 1
    }

    /// Why a step cannot be recorded against this token, if it cannot: no
    /// session has the token, or else the store has no row id left.
    pub open spec fn record_step_refused(self, token: Seq<char>) -> Option<JournalError> {
        if !self.has_session(token) {
            Some(JournalError::UnknownSession)
        } else if self.steps.len() >= i64::MAX {
            Some(JournalError::StoreFull)
        } else {
            None
        }
    }

    /// The row of a step that is recorded against a session.
    pub open spec fn new_step(
        self,
        token: Seq<char>,
        step_type: Seq<char>,
        action: Seq<char>,
        agent_name: Option<Seq<char>>,
        agent_model: Option<Seq<char>>,
        pipeline_stage: Option<int>,
        target: Option<Seq<char>>,
        result: Option<Seq<char>>,
        files_created: Option<Seq<char>>,
        files_modified: Option<Seq<char>>,
        files_deleted: Option<Seq<char>>,
        context: Option<Seq<char>>,
        now: int,
    ) -> StepView {
        StepView {
            id: self.steps.len() as int + 1,
            session_id: token,
            step_number: self.next_step_number(token),
            step_type,
            timestamp: now,
            agent_name,
            agent_model,
            pipeline_stage,
            action,
            target,
            result,
            files_created,
            files_modified,
            files_deleted,
            context,
        }
    }

    /// The journal after a step was recorded.
    pub open spec fn record_step(self, step: StepView) -> JournalView {
        JournalView { steps: self.steps.push(step), ..self }
    }
}

/// Steps that are numbered 1, 2, 3, ... have their count as their greatest
/// number.
pub proof fn lemma_numbered_max(steps: Seq<StepView>)
    requires
        numbered(steps),
    ensures
        max_step_number(steps) == steps.len(),
    decreases steps.len(),
{
    if steps.len() > 0 {
        assert(numbered(steps.drop_last())) by {
            assert forall|k: int| 0 <= k < steps.drop_last().len() implies
                (#[trigger] steps.drop_last()[k]).step_number == k + 1
            by {
                assert(steps[k].step_number == k + 1);
            }
        }
        lemma_numbered_max(steps.drop_last());
        assert(steps[steps.len() - 1].step_number == steps.len());
    }
}

/// Recording a step against a session that exists, under the next number of
/// that session and the next row id, keeps the journal well formed.
pub proof fn lemma_record_step_wf(j: JournalView, step: StepView)
    requires
        j.wf(),
        j.has_session(step.session_id),
        step.id == j.steps.len() + 1,
        step.step_number == j.next_step_number(step.session_id),
    ensures
        j.record_step(step).wf(),
{
    let after = j.record_step(step);
    assert forall|i: int| 0 <= i < after.steps.len() implies after.has_session(
        (#[trigger] after.steps[i]).session_id,
    ) by {
        if i < j.steps.len() {
            assert(j.has_session(j.steps[i].session_id));
        }
    }
    assert forall|token: Seq<char>| numbered(#[trigger] after.steps_of(token)) by {
        lemma_filter_push(j.steps, step, in_session(token));
        assert(numbered(j.steps_of(token)));
        if token == step.session_id {
            lemma_numbered_max(j.steps_of(token));
        }
    }
    lemma_file_changes_kept(j, after);
    lemma_decisions_kept(j, after);
}

/// In a well-formed journal the steps of each session, in the order in which
/// they were recorded, carry the numbers 1, 2, 3, ... up to their count,
/// without a gap or a repeat, and the next step gets the number after.
pub proof fn lemma_steps_are_numbered(j: JournalView, token: Seq<char>)
    requires
        j.wf(),
    ensures
        forall|k: int|
            0 <= k < j.steps_of(token).len() ==> {
                &&& (#[trigger] j.steps_of(token)[k]).step_number == k + 1
                &&& j.steps_of(token)[k].session_id == token
            },
        j.next_step_number(token) == j.steps_of(token).len() + 1,
{
    assert(numbered(j.steps_of(token)));
    lemma_numbered_max(j.steps_of(token));
    assert forall|k: int| 0 <= k < j.steps_of(token).len() implies (#[trigger] j.steps_of(
        token,
    )[k]).session_id == token by {
        j.steps.lemma_filter_pred(in_session(token), k);
    }
}

/// A step that is recorded joins the steps of its own session at the end,
/// and the steps of every other session stay exactly as they were, however
/// the recordings of different sessions follow one another.
pub proof fn lemma_record_step_is_per_session(j: JournalView, step: StepView, other: Seq<char>)
    ensures
        j.record_step(step).steps_of(step.session_id) == j.steps_of(step.session_id).push(step),
        other != step.session_id ==> j.record_step(step).steps_of(other) == j.steps_of(other),
{
    lemma_filter_push(j.steps, step, in_session(step.session_id));
    lemma_filter_push(j.steps, step, in_session(other));
}

impl Journal {
    /// The greatest step number among the steps of a session, 0 if it has
    /// none.
    fn greatest_step_number(&self, token: &String) -> (greatest: i64)
        requires
            self.wf(),
        ensures
            greatest == max_step_number(self@.steps_of(token@)),
            greatest == self@.steps_of(token@).len(),
            greatest <= self@.steps.len(),
    {
        let ghost mine = in_session(token@);
        let mut greatest: i64 = 0;
        let mut i: usize = 0;
        while i < self.steps.len()
            invariant
                i <= self.steps.len(),
                mine == in_session(token@),
                greatest == max_step_number(self@.steps.take(i as int).filter(mine)),
            decreases self.steps.len() - i,
        {
            let row = &self.steps[i];
            proof {
                let head = self@.steps.take(i as int);
                assert(self@.steps.take(i as int + 1) =~= head.push(row@));
                lemma_filter_push(head, row@, mine);
                if mine(row@) {
                    assert(head.filter(mine).push(row@).drop_last() =~= head.filter(mine));
                }
            }
            if row.session_id == *token && row.step_number > greatest {
                greatest = row.step_number;
            }
            i += 1;
        }
        proof {
            assert(self@.steps.take(i as int) =~= self@.steps);
            assert(numbered(self@.steps_of(token@)));
            lemma_numbered_max(self@.steps_of(token@));
            self@.steps.lemma_filter_len(mine);
        }
        greatest
    }

    /// Records a step against a session at a given time, under the next
    /// number of that session: one more than the greatest number among its
    /// steps, and 1 for its first. Returns the row id of the step.
    ///
    /// Fails when no session has this token, and when the store has no row
    /// id left.
    pub fn record_step_at(
        &mut self,
        session_id: &str,
        step_type: &str,
        action: &str,
        agent_name: Option<&str>,
        agent_model: Option<&str>,
        pipeline_stage: Option<i64>,
        target: Option<&str>,
        result: Option<&str>,
        files_created: Option<&str>,
        files_modified: Option<&str>,
        files_deleted: Option<&str>,
        context: Option<&str>,
        now: i64,
    ) -> (outcome: Result<i64, JournalError>)
        requires
            old(self).wf(),
        ensures
            final(self).wf(),
            outcome is Ok <==> old(self)@.record_step_refused(session_id@) is None,
            outcome is Err ==> {
                &&& Some(outcome->Err_0) == old(self)@.record_step_refused(session_id@)
                &&& final(self)@ == old(self)@
            },
            outcome is Ok ==> {
                &&& final(self)@ == old(self)@.record_step(
                    old(self)@.new_step(
                        session_id@,
                        step_type@,
                        action@,
                        str_of(agent_name),
                        str_of(agent_model),
                        int_of(pipeline_stage),
                        str_of(target),
                        str_of(result),
                        str_of(files_created),
                        str_of(files_modified),
                        str_of(files_deleted),
                        str_of(context),
                        now as int,
                    ),
                )
                &&& outcome->Ok_0 == old(self)@.steps.len() + 1
            },
    {
        let token = session_id.to_owned();
        if self.find_session(&token).is_none() {
            return Err(JournalError::UnknownSession);
        }
        let n: usize = self.steps.len();
        if n as u64 >= i64::MAX as u64 {
            return Err(JournalError::StoreFull);
        }
        let id: i64 = n as i64 + 1;
        let step_number: i64 = self.greatest_step_number(&token) + 1;
        let row = Step {
            id,
            session_id: token,
            step_number,
            step_type: step_type.to_owned(),
            timestamp: now,
            agent_name: owned_text(agent_name),
            agent_model: owned_text(agent_model),
            pipeline_stage,
            action: action.to_owned(),
            target: owned_text(target),
            result: owned_text(result),
            files_created: owned_text(files_created),
            files_modified: owned_text(files_modified),
            files_deleted: owned_text(files_deleted),
            context: owned_text(context),
        };
        proof {
            assert(row@ == self@.new_step(
                session_id@,
                step_type@,
                action@,
                str_of(agent_name),
                str_of(agent_model),
                int_of(pipeline_stage),
                str_of(target),
                str_of(result),
                str_of(files_created),
                str_of(files_modified),
                str_of(files_deleted),
                str_of(context),
                now as int,
            ));
            lemma_record_step_wf(self@, row@);
        }
        self.steps.push(row);
        proof {
            assert(self@.steps =~= old(self)@.steps.push(row@));
        }
        Ok(id)
    }

    /// Records a step against a session now: [`Journal::record_step_at`] at
    /// the time the clock shows.
    pub fn record_step(
        &mut self,
        session_id: &str,
        step_type: &str,
        action: &str,
        agent_name: Option<&str>,
        agent_model: Option<&str>,
        pipeline_stage: Option<i64>,
        target: Option<&str>,
        result: Option<&str>,
        files_created: Option<&str>,
        files_modified: Option<&str>,
        files_deleted: Option<&str>,
        context: Option<&str>,
    ) -> (outcome: Result<i64, JournalError>)
        requires
            old(self).wf(),
        ensures
            final(self).wf(),
            outcome is Ok <==> old(self)@.record_step_refused(session_id@) is None,
            outcome is Err ==> {
                &&& Some(outcome->Err_0) == old(self)@.record_step_refused(session_id@)
                &&& final(self)@ == old(self)@
            },
            outcome is Ok ==> {
                &&& exists|now: int|
                    final(self)@ == old(self)@.record_step(
                        #[trigger] old(self)@.new_step(
                            session_id@,
                            step_type@,
                            action@,
                            str_of(agent_name),
                            str_of(agent_model),
                            int_of(pipeline_stage),
                            str_of(target),
                            str_of(result),
                            str_of(files_created),
                            str_of(files_modified),
                            str_of(files_deleted),
                            str_of(context),
                            now,
                        ),
                    )
                &&& outcome->Ok_0 == old(self)@.steps.len() + 1
            },
    {
        let now = now_ms();
        self.record_step_at(
            session_id,
            step_type,
            action,
            agent_name,
            agent_model,
            pipeline_stage,
            target,
            result,
            files_created,
            files_modified,
            files_deleted,
            context,
            now,
        )
    }
}

} // verus!
