//! The session registry: sessions are started under a fresh token, closed
//! once with the counts of their steps, and the latest one that is still
//! active can be looked up.

use vstd::prelude::*;
use crate::clock::now_ms;
use crate::error::JournalError;
use crate::journal::Journal;
use crate::filters::{lemma_filter_from, lemma_filter_none, lemma_filter_push};
use crate::model::{in_session, lemma_links_kept, project_passes, session_row_wf, JournalView};
use crate::records::{
    owned_text, str_of, text_of, Session, SessionView, StepView, STATUS_ACTIVE, STEP_AGENT_SPAWN,
};
use crate::token::{is_token, new_token};

verus! {

/// The steps that spawned a sub-agent.
pub open spec fn is_spawn() -> spec_fn(StepView) -> bool {
    |s: StepView| s.step_type == STEP_AGENT_SPAWN@
}

/// The sessions that are still active, in a project that passes the filter.
pub open spec fn session_active(filter: Option<Seq<char>>) -> spec_fn(SessionView) -> bool {
    |s: SessionView| s.status == STATUS_ACTIVE@ && project_passes(filter, s.project)
}

/// The session that started last among some sessions. Of two that started
/// at the same instant, it is the one that was written later.
pub open spec fn latest(rows: Seq<SessionView>) -> Option<SessionView>
    decreases rows.len(),
{
    if rows.len() == 0 {
        None
    } else {
        match latest(rows.drop_last()) {
            Some(best) => if best.started_at > rows.last().started_at {
                Some(best)
            } else {
                Some(rows.last())
            },
            None => Some(rows.last()),
        }
    }
}

/// A session after it was closed: the end time, the status and the summary
/// are written, a summary that is left out erases the one before, and the
/// counts of its steps are rolled up.
pub open spec fn closed(
    s: SessionView,
    summary: Option<Seq<char>>,
    status: Seq<char>,
    steps: int,
    agents: int,
    now: int,
) -> SessionView {
    SessionView {
        ended_at: Some(now),
        status,
        summary,
        total_steps: steps,
        total_agents_spawned: agents,
        ..s
    }
}

impl JournalView {
    /// The place of the session of this token among the sessions.
    pub open spec fn session_index(self, token: Seq<char>) -> int {
        choose|i: int| 0 <= i < self.sessions.len() && (#[trigger] self.sessions[i]).session_id == token
    }

    /// The row of a session that starts: active, not ended, without a
    /// summary, and with no steps counted.
    pub open spec fn new_session(
        self,
        token: Seq<char>,
        project: Seq<char>,
        feature_name: Option<Seq<char>>,
        initial_request: Option<Seq<char>>,
        now: int,
    ) -> SessionView {
        SessionView {
            id: self.sessions.len() as int + 1,
            session_id: token,
            project,
            feature_name,
            initial_request,
            started_at: now,
            ended_at: None,
            status: STATUS_ACTIVE@,
            summary: None,
            total_steps: 0,
            total_agents_spawned: 0,
        }
    }

    /// Why a session cannot be started under this token, if it cannot: the
    /// token is taken, or else the store has no row id left.
    pub open spec fn start_session_refused(self, token: Seq<char>) -> Option<JournalError> {
        if self.has_session(token) {
            Some(JournalError::DuplicateSession)
        } else if self.sessions.len() >= i64::MAX {
            Some(JournalError::StoreFull)
        } else {
            None
        }
    }

    /// The journal after a session was started.
    pub open spec fn start_session(
        self,
        token: Seq<char>,
        project: Seq<char>,
        feature_name: Option<Seq<char>>,
        initial_request: Option<Seq<char>>,
        now: int,
    ) -> JournalView {
        JournalView {
            sessions: self.sessions.push(
                self.new_session(token, project, feature_name, initial_request, now),
            ),
            ..self
        }
    }

    /// The number of steps recorded against a session.
    pub open spec fn step_count(self, token: Seq<char>) -> int {
        self.steps_of(token).len() as int
    }

    /// The number of steps recorded against a session that spawned a
    /// sub-agent.
    pub open spec fn spawn_count(self, token: Seq<char>) -> int {
        self.steps_of(token).filter(is_spawn()).len() as int
    }

    /// The journal after a session was closed: the session of this token is
    /// closed with the counts of the steps recorded against it so far.
    /// Nothing changes where no session has this token.
    pub open spec fn end_session(
        self,
        token: Seq<char>,
        summary: Option<Seq<char>>,
        status: Seq<char>,
        now: int,
    ) -> JournalView {
        JournalView {
            sessions: self.sessions.map_values(
                |s: SessionView|
                    if s.session_id == token {
                        closed(
                            s,
                            summary,
                            status,
                            self.step_count(token),
                            self.spawn_count(token),
                            now,
                        )
                    } else {
                        s
                    },
            ),
            ..self
        }
    }

    /// The session that started last among the active sessions of the
    /// project of the filter or, without a filter, of all projects.
    pub open spec fn latest_active(self, filter: Option<Seq<char>>) -> Option<SessionView> {
        latest(self.sessions.filter(session_active(filter)))
    }
}

/// Starting a session under a token that no session has keeps the journal
/// well formed.
pub proof fn lemma_start_session_wf(
    j: JournalView,
    token: Seq<char>,
    project: Seq<char>,
    feature_name: Option<Seq<char>>,
    initial_request: Option<Seq<char>>,
    now: int,
)
    requires
        j.wf(),
        !j.has_session(token),
    ensures
        j.start_session(token, project, feature_name, initial_request, now).wf(),
{
    let after = j.start_session(token, project, feature_name, initial_request, now);
    assert forall|i: int, k: int| 0 <= i < k < after.sessions.len() implies
        (#[trigger] after.sessions[i]).session_id != (#[trigger] after.sessions[k]).session_id
    by {
        if k < j.sessions.len() {
            assert(j.sessions[i].session_id != j.sessions[k].session_id);
        } else {
            assert(j.sessions[i].session_id != token);
        }
    }
    assert forall|i: int| 0 <= i < after.sessions.len() implies session_row_wf(
        #[trigger] after.sessions[i],
    ) by {
        if i < j.sessions.len() {
            assert(session_row_wf(j.sessions[i]));
        }
    }
    assert forall|t: Seq<char>| j.has_session(t) implies after.has_session(t) by {
        let i = j.session_index(t);
        assert(after.sessions[i].session_id == t);
    }
    lemma_links_kept(j, after);
}

impl Journal {
    /// Where the session of this token stands, if there is one.
    pub(crate) fn find_session(&self, token: &String) -> (found: Option<usize>)
        ensures
            match found {
                Some(i) => i < self@.sessions.len() && self@.sessions[i as int].session_id == token@,
                None => !self@.has_session(token@),
            },
    {
        let mut i: usize = 0;
        while i < self.sessions.len()
            invariant
                i <= self.sessions.len(),
                forall|j: int| 0 <= j < i ==> (#[trigger] self@.sessions[j]).session_id != token@,
            decreases self.sessions.len() - i,
        {
            if self.sessions[i].session_id == *token {
                return Some(i);
            }
            i += 1;
        }
        None
    }

    /// Starts a session under a given token at a given time: adds its row,
    /// active and with nothing counted.
    ///
    /// Fails when a session has this token already, and when the store has
    /// no row id left.
    pub fn start_session_at(
        &mut self,
        session_id: &str,
        project: &str,
        feature_name: Option<&str>,
        initial_request: Option<&str>,
        now: i64,
    ) -> (outcome: Result<(), JournalError>)
        requires
            old(self).wf(),
        ensures
            final(self).wf(),
            outcome is Ok <==> old(self)@.start_session_refused(session_id@) is None,
            outcome is Err ==> {
                &&& Some(outcome->Err_0) == old(self)@.start_session_refused(session_id@)
                &&& final(self)@ == old(self)@
            },
            outcome is Ok ==> final(self)@ == old(self)@.start_session(
                session_id@,
                project@,
                str_of(feature_name),
                str_of(initial_request),
                now as int,
            ),
    {
        let token = session_id.to_owned();
        if self.find_session(&token).is_some() {
            return Err(JournalError::DuplicateSession);
        }
        let n: usize = self.sessions.len();
        if n as u64 >= i64::MAX as u64 {
            return Err(JournalError::StoreFull);
        }
        let row = Session {
            id: n as i64 + 1,
            session_id: token,
            project: project.to_owned(),
            feature_name: owned_text(feature_name),
            initial_request: owned_text(initial_request),
            started_at: now,
            ended_at: None,
            status: STATUS_ACTIVE.to_owned(),
            summary: None,
            total_steps: 0,
            total_agents_spawned: 0,
        };
        proof {
            lemma_start_session_wf(
                self@,
                session_id@,
                project@,
                str_of(feature_name),
                str_of(initial_request),
                now as int,
            );
            assert(row@ == self@.new_session(
                session_id@,
                project@,
                str_of(feature_name),
                str_of(initial_request),
                now as int,
            ));
        }
        self.sessions.push(row);
        proof {
            assert(self@.sessions =~= old(self)@.sessions.push(row@));
        }
        Ok(())
    }

    /// Starts a session now, under a fresh random token, and returns the
    /// token: [`Journal::start_session_at`] with what the token source and
    /// the clock give.
    ///
    /// Fails when the token source repeats a token that a session has, and
    /// when the store has no row id left.
    pub fn start_session(
        &mut self,
        project: &str,
        feature_name: Option<&str>,
        initial_request: Option<&str>,
    ) -> (outcome: Result<String, JournalError>)
        requires
            old(self).wf(),
        ensures
            final(self).wf(),
            outcome is Err ==> {
                &&& final(self)@ == old(self)@
                &&& exists|token: Seq<char>|
                    is_token(token) && Some(outcome->Err_0)
                        == #[trigger] old(self)@.start_session_refused(token)
            },
            outcome is Ok ==> {
                &&& is_token(outcome->Ok_0@)
                &&& old(self)@.start_session_refused(outcome->Ok_0@) is None
                &&& exists|now: int|
                    final(self)@ == #[trigger] old(self)@.start_session(
                        outcome->Ok_0@,
                        project@,
                        str_of(feature_name),
                        str_of(initial_request),
                        now,
                    )
            },
    {
        let token = new_token();
        let now = now_ms();
        match self.start_session_at(token.as_str(), project, feature_name, initial_request, now) {
            Ok(()) => Ok(token),
            Err(e) => Err(e),
        }
    }

    /// The number of steps recorded against a session, and how many of them
    /// spawned a sub-agent.
    fn count_steps(&self, token: &String) -> (counts: (i64, i64))
        requires
            self.wf(),
        ensures
            counts.0 == self@.step_count(token@),
            counts.1 == self@.spawn_count(token@),
            0 <= counts.1 <= counts.0,
    {
        let spawn_text = STEP_AGENT_SPAWN.to_owned();
        let ghost mine = in_session(token@);
        let ghost spawn = is_spawn();
        let mut steps: i64 = 0;
        let mut agents: i64 = 0;
        let mut i: usize = 0;
        while i < self.steps.len()
            invariant
                self.wf(),
                i <= self.steps.len(),
                mine == in_session(token@),
                spawn == is_spawn(),
                spawn_text@ == STEP_AGENT_SPAWN@,
                steps == self@.steps.take(i as int).filter(mine).len(),
                agents == self@.steps.take(i as int).filter(mine).filter(spawn).len(),
                0 <= agents <= steps <= i,
            decreases self.steps.len() - i,
        {
            let row = &self.steps[i];
            proof {
                let head = self@.steps.take(i as int);
                assert(self@.steps.take(i as int + 1) =~= head.push(row@));
                lemma_filter_push(head, row@, mine);
                lemma_filter_push(head.filter(mine), row@, spawn);
                assert(self@.steps[i as int].id == i + 1);
            }
            if row.session_id == *token {
                steps = steps + 1;
                if row.step_type == spawn_text {
                    agents = agents + 1;
                }
            }
            i += 1;
        }
        proof {
            assert(self@.steps.take(i as int) =~= self@.steps);
        }
        (steps, agents)
    }

    /// Closes a session at a given time: writes its end time, its status
    /// and its summary, and rolls up the number of steps recorded against
    /// it and the number of those that spawned a sub-agent. A session that
    /// was closed before is closed again, with the new values. Where no
    /// session has this token nothing changes, and that is no failure.
    pub fn end_session_at(&mut self, session_id: &str, summary: Option<&str>, status: &str, now: i64)
        requires
            old(self).wf(),
        ensures
            final(self).wf(),
            final(self)@ == old(self)@.end_session(
                session_id@,
                str_of(summary),
                status@,
                now as int,
            ),
    {
        let token = session_id.to_owned();
        let (steps, agents) = self.count_steps(&token);
        proof {
            lemma_end_session_wf(self@, session_id@, str_of(summary), status@, now as int);
        }
        let ghost after = self@.end_session(session_id@, str_of(summary), status@, now as int);
        match self.find_session(&token) {
            Some(i) => {
                let ghost before = self@.sessions[i as int];
                self.sessions[i].ended_at = Some(now);
                self.sessions[i].status = status.to_owned();
                self.sessions[i].summary = owned_text(summary);
                self.sessions[i].total_steps = steps;
                self.sessions[i].total_agents_spawned = agents;
                proof {
                    assert(self@.sessions[i as int] == closed(
                        before,
                        str_of(summary),
                        status@,
                        steps as int,
                        agents as int,
                        now as int,
                    ));
                    assert forall|k: int| 0 <= k < self@.sessions.len() implies
                        (#[trigger] self@.sessions[k]) == after.sessions[k]
                    by {
                        let rows = old(self)@.sessions;
                        if k < i {
                            assert(rows[k].session_id != rows[i as int].session_id);
                        } else if k > i {
                            assert(rows[i as int].session_id != rows[k].session_id);
                        }
                    }
                    assert(self@.sessions =~= after.sessions);
                }
            },
            None => {
                proof {
                    assert(self@.sessions =~= after.sessions);
                }
            },
        }
    }

    /// Closes a session now: [`Journal::end_session_at`] at the time the
    /// clock shows.
    pub fn end_session(&mut self, session_id: &str, summary: Option<&str>, status: &str)
        requires
            old(self).wf(),
        ensures
            final(self).wf(),
            exists|now: int|
                final(self)@ == #[trigger] old(self)@.end_session(
                    session_id@,
                    str_of(summary),
                    status@,
                    now,
                ),
    {
        let now = now_ms();
        self.end_session_at(session_id, summary, status, now)
    }

    /// The session that started last among the active sessions, of one
    /// project or of all: the one with the greatest start time, and of
    /// several with that start time the one that was written last. `None`
    /// where no session is active there, which is no failure.
    pub fn get_active_session(&self, project: Option<&str>) -> (found: Option<&Session>)
        ensures
            match found {
                Some(s) => self@.latest_active(str_of(project)) == Some(s@),
                None => self@.latest_active(str_of(project)) is None,
            },
    {
        let wanted: Option<String> = owned_text(project);
        let active_text = STATUS_ACTIVE.to_owned();
        let ghost filter = str_of(project);
        let ghost active = session_active(filter);
        let mut best: Option<usize> = None;
        let mut i: usize = 0;
        while i < self.sessions.len()
            invariant
                i <= self.sessions.len(),
                filter == str_of(project),
                text_of(wanted) == filter,
                active == session_active(filter),
                active_text@ == STATUS_ACTIVE@,
                match best {
                    Some(b) => b < i && latest(self@.sessions.take(i as int).filter(active)) == Some(
                        self@.sessions[b as int],
                    ),
                    None => latest(self@.sessions.take(i as int).filter(active)) is None,
                },
            decreases self.sessions.len() - i,
        {
            let row = &self.sessions[i];
            proof {
                let head = self@.sessions.take(i as int);
                assert(self@.sessions.take(i as int + 1) =~= head.push(row@));
                lemma_filter_push(head, row@, active);
                if active(row@) {
                    assert(head.filter(active).push(row@).drop_last() =~= head.filter(active));
                }
            }
            let in_project = match &wanted {
                Some(name) => row.project == *name,
                None => true,
            };
            if row.status == active_text && in_project {
                let later = match best {
                    Some(b) => !(self.sessions[b].started_at > row.started_at),
                    None => true,
                };
                if later {
                    best = Some(i);
                }
            }
            i += 1;
        }
        proof {
            assert(self@.sessions.take(i as int) =~= self@.sessions);
        }
        match best {
            Some(b) => Some(&self.sessions[b]),
            None => None,
        }
    }
}

/// Closing a session keeps the journal well formed.
pub proof fn lemma_end_session_wf(
    j: JournalView,
    token: Seq<char>,
    summary: Option<Seq<char>>,
    status: Seq<char>,
    now: int,
)
    requires
        j.wf(),
    ensures
        j.end_session(token, summary, status, now).wf(),
{
    let after = j.end_session(token, summary, status, now);
    j.steps_of(token).lemma_filter_len(is_spawn());
    assert forall|i: int, k: int| 0 <= i < k < after.sessions.len() implies
        (#[trigger] after.sessions[i]).session_id != (#[trigger] after.sessions[k]).session_id
    by {
        assert(j.sessions[i].session_id != j.sessions[k].session_id);
    }
    assert forall|i: int| 0 <= i < after.sessions.len() implies session_row_wf(
        #[trigger] after.sessions[i],
    ) by {
        assert(session_row_wf(j.sessions[i]));
    }
    assert forall|t: Seq<char>| j.has_session(t) implies after.has_session(t) by {
        let i = j.session_index(t);
        assert(after.sessions[i].session_id == t);
    }
    lemma_links_kept(j, after);
}

/// Closing a session rolls up exactly what was recorded against it: where N
/// steps were recorded under its token, A of them spawns of a sub-agent, the
/// closed session reports N steps and A agents, together with the end time,
/// the status and the summary of the closing. Every other session stays as
/// it was, and so do the steps.
pub proof fn lemma_end_session_counts(
    j: JournalView,
    token: Seq<char>,
    summary: Option<Seq<char>>,
    status: Seq<char>,
    now: int,
)
    ensures
        ({
            let after = j.end_session(token, summary, status, now);
            &&& after.sessions.len() == j.sessions.len()
            &&& after.steps == j.steps
            &&& forall|i: int|
                0 <= i < j.sessions.len() && j.sessions[i].session_id == token ==> {
                    &&& (#[trigger] after.sessions[i]).total_steps == j.steps_of(token).len()
                    &&& after.sessions[i].total_agents_spawned == j.steps_of(token).filter(
                        is_spawn(),
                    ).len()
                    &&& after.sessions[i].ended_at == Some(now)
                    &&& after.sessions[i].status == status
                    &&& after.sessions[i].summary == summary
                    &&& after.sessions[i].session_id == token
                    &&& after.sessions[i].started_at == j.sessions[i].started_at
                }
            &&& forall|i: int|
                0 <= i < j.sessions.len() && j.sessions[i].session_id != token
                    ==> #[trigger] after.sessions[i] == j.sessions[i]
        }),
{
}

/// What the latest of some sessions is: there is none exactly when there are
/// no sessions; otherwise it is one of them, and none of them started after
/// it.
pub proof fn lemma_latest(rows: Seq<SessionView>)
    ensures
        latest(rows) is None <==> rows.len() == 0,
        latest(rows) is Some ==> {
            &&& rows.contains(latest(rows).unwrap())
            &&& forall|i: int|
                0 <= i < rows.len() ==> (#[trigger] rows[i]).started_at
                    <= latest(rows).unwrap().started_at
        },
    decreases rows.len(),
{
    if rows.len() > 0 {
        let head = rows.drop_last();
        lemma_latest(head);
        let best = latest(rows).unwrap();
        if latest(head) is Some && latest(head).unwrap() == best {
            let at = choose|i: int| 0 <= i < head.len() && head[i] == best;
            assert(rows[at] == best);
        } else {
            assert(rows[rows.len() - 1] == best);
        }
        assert forall|i: int| 0 <= i < rows.len() implies (#[trigger] rows[i]).started_at
            <= best.started_at by {
            if i < head.len() {
                assert(head[i] == rows[i]);
            }
        }
    }
}

/// What the lookup of the active session finds. It finds nothing exactly
/// when no session is active in a project that passes the filter. What it
/// finds is a session of the journal, active, in a project that passes the
/// filter, and no such session started after it.
pub proof fn lemma_latest_active(j: JournalView, filter: Option<Seq<char>>)
    ensures
        j.latest_active(filter) is None <==> forall|i: int|
            0 <= i < j.sessions.len() ==> !session_active(filter)(#[trigger] j.sessions[i]),
        j.latest_active(filter) is Some ==> {
            let found = j.latest_active(filter).unwrap();
            &&& j.sessions.contains(found)
            &&& found.status == STATUS_ACTIVE@
            &&& project_passes(filter, found.project)
            &&& forall|i: int|
                0 <= i < j.sessions.len() && session_active(filter)(#[trigger] j.sessions[i])
                    ==> j.sessions[i].started_at <= found.started_at
        },
{
    let active = session_active(filter);
    let rows = j.sessions.filter(active);
    lemma_latest(rows);
    if forall|i: int| 0 <= i < j.sessions.len() ==> !active(#[trigger] j.sessions[i]) {
        lemma_filter_none(j.sessions, active);
    }
    if rows.len() == 0 {
        assert forall|i: int| 0 <= i < j.sessions.len() implies !active(#[trigger] j.sessions[i]) by {
            if active(j.sessions[i]) {
                j.sessions.lemma_filter_contains(active, i);
            }
        }
    }
    if j.latest_active(filter) is Some {
        let found = j.latest_active(filter).unwrap();
        let at = choose|i: int| 0 <= i < rows.len() && rows[i] == found;
        j.sessions.lemma_filter_pred(active, at);
        lemma_filter_from(j.sessions, active, at);
        assert forall|i: int|
            0 <= i < j.sessions.len() && active(#[trigger] j.sessions[i]) implies j.sessions[i].started_at
            <= found.started_at by {
            j.sessions.lemma_filter_contains(active, i);
            let k = choose|k: int| 0 <= k < rows.len() && rows[k] == j.sessions[i];
            assert(rows[k].started_at <= found.started_at);
        }
    }
}



} // verus!
