//! The journey summary: counts and sums over the sessions that started, and
//! the features that were created, within a window of days that ends now,
//! for one project or for all.

use vstd::prelude::*;
use crate::clock::now_ms;
use crate::error::JournalError;
use crate::journal::Journal;
use crate::filters::{lemma_filter_none, lemma_filter_push, lemma_narrower_filter};
use crate::model::{project_passes, session_row_wf, JournalView};
use crate::records::{
    owned_text, str_of, text_of, Feature, FeatureView, Session, SessionView, STATUS_COMPLETED,
};

verus! {

/// The length of a day in milliseconds.
pub const MS_PER_DAY: i64 = 86_400_000;

/// The number of days a summary covers when none is asked for.
pub const DEFAULT_SUMMARY_DAYS: i64 = 30;

/// What a summary over all projects reports as its project.
pub const ALL_PROJECTS: &'static str = "all";

/// The totals over the sessions of a window.
#[derive(Debug, Clone, Copy, PartialEq, Eq)]
pub struct SessionTotals {
    pub total: i64,
    pub completed: i64,
    pub total_steps: i64,
    pub total_agents: i64,
}

/// The totals over the features of a window.
#[derive(Debug, Clone, Copy, PartialEq, Eq)]
pub struct FeatureTotals {
    pub total: i64,
    pub completed: i64,
}

/// A journey summary.
#[derive(Debug, PartialEq, Eq)]
pub struct Summary {
    pub period_days: i64,
    pub project: String,
    pub sessions: SessionTotals,
    pub features: FeatureTotals,
}

/// What a [`SessionTotals`] says.
pub struct SessionTotalsView {
    pub total: int,
    pub completed: int,
    pub total_steps: int,
    pub total_agents: int,
}

/// What a [`FeatureTotals`] says.
pub struct FeatureTotalsView {
    pub total: int,
    pub completed: int,
}

/// What a [`Summary`] says.
pub struct SummaryView {
    pub period_days: int,
    pub project: Seq<char>,
    pub sessions: SessionTotalsView,
    pub features: FeatureTotalsView,
}

impl View for SessionTotals {
    type V = SessionTotalsView;

    open spec fn view(&self) -> SessionTotalsView {
        SessionTotalsView {
            total: self.total as int,
            completed: self.completed as int,
            total_steps: self.total_steps as int,
            total_agents: self.total_agents as int,
        }
    }
}

impl View for FeatureTotals {
    type V = FeatureTotalsView;

    open spec fn view(&self) -> FeatureTotalsView {
        FeatureTotalsView { total: self.total as int, completed: self.completed as int }
    }
}

impl View for Summary {
    type V = SummaryView;

    open spec fn view(&self) -> SummaryView {
        SummaryView {
            period_days: self.period_days as int,
            project: self.project@,
            sessions: self.sessions@,
            features: self.features@,
        }
    }
}

/// The instant at which a window of `days` days that ends at `now` begins.
/// What happened strictly after it is inside the window.
pub open spec fn cutoff(now: int, days: int) -> int {
    now - days * MS_PER_DAY
}

/// The sessions a summary counts: started after the cutoff, in a project
/// that passes the filter.
pub open spec fn session_counted(filter: Option<Seq<char>>, cutoff: int) -> spec_fn(
    SessionView,
) -> bool {
    |s: SessionView| s.started_at > cutoff && project_passes(filter, s.project)
}

/// The features a summary counts: created after the cutoff, in a project
/// that passes the filter.
pub open spec fn feature_counted(filter: Option<Seq<char>>, cutoff: int) -> spec_fn(
    FeatureView,
) -> bool {
    |f: FeatureView| f.created_at > cutoff && project_passes(filter, f.project)
}

/// The sessions whose status is "completed".
pub open spec fn session_completed() -> spec_fn(SessionView) -> bool {
    |s: SessionView| s.status == STATUS_COMPLETED@
}

/// The features whose status is "completed".
pub open spec fn feature_completed() -> spec_fn(FeatureView) -> bool {
    |f: FeatureView| f.status == STATUS_COMPLETED@
}

/// The sum of the rolled-up step counts of some sessions.
pub open spec fn steps_total(sessions: Seq<SessionView>) -> int
    decreases sessions.len(),
{
    if sessions.len() == 0 {
        0
    } else {
        steps_total(sessions.drop_last()) + sessions.last().total_steps
    }
}

/// The sum of the rolled-up agent counts of some sessions.
pub open spec fn agents_total(sessions: Seq<SessionView>) -> int
    decreases sessions.len(),
{
    if sessions.len() == 0 {
        0
    } else {
        agents_total(sessions.drop_last()) + sessions.last().total_agents_spawned
    }
}

/// The totals over some sessions.
pub open spec fn session_totals(window: Seq<SessionView>) -> SessionTotalsView {
    SessionTotalsView {
        total: window.len() as int,
        completed: window.filter(session_completed()).len() as int,
        total_steps: steps_total(window),
        total_agents: agents_total(window),
    }
}

/// The totals over some features.
pub open spec fn feature_totals(window: Seq<FeatureView>) -> FeatureTotalsView {
    FeatureTotalsView {
        total: window.len() as int,
        completed: window.filter(feature_completed()).len() as int,
    }
}

/// What a summary reports as its project: the project of the filter, and
/// "all" without a filter.
pub open spec fn summary_label(filter: Option<Seq<char>>) -> Seq<char> {
    match filter {
        Some(wanted) => wanted,
        None => ALL_PROJECTS@,
    }
}

impl Summary {
    /// The summary that reports these totals for a window of `days` days,
    /// for one project or for all.
    pub fn from_totals(
        project: Option<&str>,
        days: i64,
        sessions: SessionTotals,
        features: FeatureTotals,
    ) -> (summary: Summary)
        ensures
            summary@ == (SummaryView {
                period_days: days as int,
                project: summary_label(str_of(project)),
                sessions: sessions@,
                features: features@,
            }),
    {
        let label = match project {
            Some(name) => name.to_owned(),
            None => ALL_PROJECTS.to_owned(),
        };
        Summary { period_days: days, project: label, sessions, features }
    }
}

/// The summary over some sessions and some features: the totals over the
/// sessions that started, and the features that were created, in the `days`
/// days that end at `now`, for the project of the filter or, without a
/// filter, for all.
pub open spec fn summary_of(
    sessions: Seq<SessionView>,
    features: Seq<FeatureView>,
    filter: Option<Seq<char>>,
    days: int,
    now: int,
) -> SummaryView {
    SummaryView {
        period_days: days,
        project: summary_label(filter),
        sessions: session_totals(sessions.filter(session_counted(filter, cutoff(now, days)))),
        features: feature_totals(features.filter(feature_counted(filter, cutoff(now, days)))),
    }
}

impl JournalView {
    /// The summary of the journal over the `days` days that end at `now`,
    /// for the project of the filter or, without a filter, for all.
    pub open spec fn summary(self, filter: Option<Seq<char>>, days: int, now: int) -> SummaryView {
        summary_of(self.sessions, self.features, filter, days, now)
    }
}

/// Whether a number fits in 64 bits.
pub open spec fn fits(n: int) -> bool {
    i64::MIN <= n <= i64::MAX
}

/// Whether every number of a summary fits in 64 bits.
pub open spec fn summary_fits(summary: SummaryView) -> bool {
    &&& fits(summary.sessions.total)
    &&& fits(summary.sessions.total_steps)
    &&& fits(summary.sessions.total_agents)
    &&& fits(summary.features.total)
}

/// Whether `outcome` reports `summary`: it is the summary itself where every
/// number of it fits in 64 bits, and the failure of a total that overflowed
/// where one does not.
pub open spec fn is_summary_outcome(
    summary: SummaryView,
    outcome: Result<Summary, JournalError>,
) -> bool {
    match outcome {
        Ok(s) => s@ == summary && summary_fits(summary),
        Err(e) => e == JournalError::TotalOverflow && !summary_fits(summary),
    }
}

/// The summary over some sessions and some features, for the `days` days
/// that end at `now`: how many of the sessions started in that window, how
/// many of those are completed, the sums of their rolled-up step and agent
/// counts, and how many of the features were created in it and how many of
/// those are completed. With a project only its sessions and features
/// count, without one all of them do.
///
/// Fails exactly when one of these numbers does not fit in 64 bits.
pub fn summarize(
    sessions: &Vec<Session>,
    features: &Vec<Feature>,
    project: Option<&str>,
    days: i64,
    now: i64,
) -> (outcome: Result<Summary, JournalError>)
    ensures
        is_summary_outcome(
            summary_of(
                sessions@.map_values(|r: Session| r@),
                features@.map_values(|r: Feature| r@),
                str_of(project),
                days as int,
                now as int,
            ),
            outcome,
        ),
{
    let span: i128 = (days as i128) * (MS_PER_DAY as i128);
    assert(span == days * MS_PER_DAY);
    let cut: i128 = now as i128 - span;
    let wanted: Option<String> = owned_text(project);
    let completed_text = STATUS_COMPLETED.to_owned();
    let ghost rows = sessions@.map_values(|r: Session| r@);
    let ghost filter = str_of(project);
    let ghost counted = session_counted(filter, cutoff(now as int, days as int));
    let ghost done = session_completed();

    let mut total: usize = 0;
    let mut completed: usize = 0;
    let mut steps: i128 = 0;
    let mut agents: i128 = 0;
    let mut i: usize = 0;
    while i < sessions.len()
        invariant
            i <= sessions.len(),
            rows == sessions@.map_values(|r: Session| r@),
            cut == cutoff(now as int, days as int),
            filter == str_of(project),
            text_of(wanted) == filter,
            completed_text@ == STATUS_COMPLETED@,
            counted == session_counted(filter, cutoff(now as int, days as int)),
            done == session_completed(),
            total == rows.take(i as int).filter(counted).len(),
            completed == rows.take(i as int).filter(counted).filter(done).len(),
            steps == steps_total(rows.take(i as int).filter(counted)),
            agents == agents_total(rows.take(i as int).filter(counted)),
            completed <= total <= i,
            -0x8000_0000_0000_0000 * total <= steps <= 0x8000_0000_0000_0000 * total,
            -0x8000_0000_0000_0000 * total <= agents <= 0x8000_0000_0000_0000 * total,
        decreases sessions.len() - i,
    {
        let row = &sessions[i];
        let ghost head = rows.take(i as int);
        let ghost seen = head.filter(counted);
        proof {
            assert(rows.take(i as int + 1) =~= head.push(row@));
            lemma_filter_push(head, row@, counted);
            lemma_filter_push(seen, row@, done);
            if counted(row@) {
                assert(seen.push(row@).drop_last() =~= seen);
            }
        }
        let in_project = match &wanted {
            Some(name) => row.project == *name,
            None => true,
        };
        if row.started_at as i128 > cut && in_project {
            steps = steps + row.total_steps as i128;
            agents = agents + row.total_agents_spawned as i128;
            total = total + 1;
            if row.status == completed_text {
                completed = completed + 1;
            }
        }
        i += 1;
    }
    assert(rows.take(i as int) =~= rows);

    let ghost items = features@.map_values(|r: Feature| r@);
    let ghost made = feature_counted(filter, cutoff(now as int, days as int));
    let ghost finished = feature_completed();
    let mut created: usize = 0;
    let mut created_completed: usize = 0;
    let mut k: usize = 0;
    while k < features.len()
        invariant
            k <= features.len(),
            items == features@.map_values(|r: Feature| r@),
            cut == cutoff(now as int, days as int),
            filter == str_of(project),
            text_of(wanted) == filter,
            completed_text@ == STATUS_COMPLETED@,
            made == feature_counted(filter, cutoff(now as int, days as int)),
            finished == feature_completed(),
            created == items.take(k as int).filter(made).len(),
            created_completed == items.take(k as int).filter(made).filter(finished).len(),
            created_completed <= created <= k,
        decreases features.len() - k,
    {
        let row = &features[k];
        let ghost head = items.take(k as int);
        proof {
            assert(items.take(k as int + 1) =~= head.push(row@));
            lemma_filter_push(head, row@, made);
            lemma_filter_push(head.filter(made), row@, finished);
        }
        let in_project = match &wanted {
            Some(name) => row.project == *name,
            None => true,
        };
        if row.created_at as i128 > cut && in_project {
            created = created + 1;
            if row.status == completed_text {
                created_completed = created_completed + 1;
            }
        }
        k += 1;
    }
    assert(items.take(k as int) =~= items);

    let counts_fit = total as u64 <= i64::MAX as u64 && created as u64 <= i64::MAX as u64;
    let steps_fit = i64::MIN as i128 <= steps && steps <= i64::MAX as i128;
    let agents_fit = i64::MIN as i128 <= agents && agents <= i64::MAX as i128;
    if !(counts_fit && steps_fit && agents_fit) {
        return Err(JournalError::TotalOverflow);
    }
    Ok(
        Summary::from_totals(
            project,
            days,
            SessionTotals {
                total: total as i64,
                completed: completed as i64,
                total_steps: steps as i64,
                total_agents: agents as i64,
            },
            FeatureTotals { total: created as i64, completed: created_completed as i64 },
        ),
    )
}

impl Journal {
    /// The summary of the journal over the `days` days that end at `now`:
    /// [`summarize`] over its sessions and its features.
    ///
    /// Fails exactly when one of the numbers of the summary does not fit in
    /// 64 bits.
    pub fn get_journey_summary_at(
        &self,
        project: Option<&str>,
        days: i64,
        now: i64,
    ) -> (outcome: Result<Summary, JournalError>)
        ensures
            is_summary_outcome(self@.summary(str_of(project), days as int, now as int), outcome),
    {
        summarize(&self.sessions, &self.features, project, days, now)
    }

    /// The summary of the journal over the `days` days that end now:
    /// [`Journal::get_journey_summary_at`] at the time the clock shows.
    pub fn get_journey_summary(
        &self,
        project: Option<&str>,
        days: i64,
    ) -> (outcome: Result<Summary, JournalError>)
        ensures
            exists|now: int|
                is_summary_outcome(
                    #[trigger] self@.summary(str_of(project), days as int, now),
                    outcome,
                ),
    {
        let now = now_ms();
        let outcome = self.get_journey_summary_at(project, days, now);
        assert(is_summary_outcome(
            self@.summary(str_of(project), days as int, now as int),
            outcome,
        ));
        outcome
    }
}

/// A narrower filter over well-formed session rows keeps no more steps and
/// no more agents than a wider one.
pub proof fn lemma_narrower_totals(
    rows: Seq<SessionView>,
    narrow: spec_fn(SessionView) -> bool,
    wide: spec_fn(SessionView) -> bool,
)
    requires
        forall|x: SessionView| #[trigger] narrow(x) ==> wide(x),
        forall|i: int| 0 <= i < rows.len() ==> session_row_wf(#[trigger] rows[i]),
    ensures
        steps_total(rows.filter(narrow)) <= steps_total(rows.filter(wide)),
        agents_total(rows.filter(narrow)) <= agents_total(rows.filter(wide)),
    decreases rows.len(),
{
    reveal(Seq::filter);
    if rows.len() > 0 {
        let head = rows.drop_last();
        let last = rows.last();
        lemma_narrower_totals(head, narrow, wide);
        assert(rows =~= head.push(last));
        assert(session_row_wf(rows[rows.len() - 1]));
        lemma_filter_push(head, last, narrow);
        lemma_filter_push(head, last, wide);
        assert(head.filter(narrow).push(last).drop_last() =~= head.filter(narrow));
        assert(head.filter(wide).push(last).drop_last() =~= head.filter(wide));
    }
}

/// Over well-formed session rows the sums are not negative, and the agents
/// are no more than the steps.
pub proof fn lemma_totals_not_negative(
    rows: Seq<SessionView>,
    pred: spec_fn(SessionView) -> bool,
)
    requires
        forall|i: int| 0 <= i < rows.len() ==> session_row_wf(#[trigger] rows[i]),
    ensures
        0 <= agents_total(rows.filter(pred)) <= steps_total(rows.filter(pred)),
    decreases rows.len(),
{
    reveal(Seq::filter);
    if rows.len() > 0 {
        let head = rows.drop_last();
        let last = rows.last();
        lemma_totals_not_negative(head, pred);
        assert(rows =~= head.push(last));
        assert(session_row_wf(rows[rows.len() - 1]));
        lemma_filter_push(head, last, pred);
        assert(head.filter(pred).push(last).drop_last() =~= head.filter(pred));
    }
}

/// The numbers of a summary of a well-formed journal are counts: none is
/// negative, the completed sessions are among the sessions, the completed
/// features among the features, and the agents are no more than the steps.
pub proof fn lemma_summary_counts(j: JournalView, filter: Option<Seq<char>>, days: int, now: int)
    requires
        j.wf(),
    ensures
        ({
            let summary = j.summary(filter, days, now);
            &&& 0 <= summary.sessions.completed <= summary.sessions.total
            &&& 0 <= summary.sessions.total_agents <= summary.sessions.total_steps
            &&& 0 <= summary.features.completed <= summary.features.total
        }),
{
    let cut = cutoff(now, days);
    lemma_totals_not_negative(j.sessions, session_counted(filter, cut));
    j.sessions.filter(session_counted(filter, cut)).lemma_filter_len(session_completed());
    j.features.filter(feature_counted(filter, cut)).lemma_filter_len(feature_completed());
}

/// The summary for one project never exceeds the summary for all projects
/// over the same journal, the same days and the same instant: not in the
/// number of sessions, nor of completed sessions, nor in the steps, nor in
/// the agents, nor in the number of features, nor of completed features.
pub proof fn lemma_summary_of_one_project_within_all(
    j: JournalView,
    project: Seq<char>,
    days: int,
    now: int,
)
    requires
        j.wf(),
    ensures
        ({
            let all = j.summary(None, days, now);
            let one = j.summary(Some(project), days, now);
            &&& one.period_days == all.period_days
            &&& 0 <= one.sessions.total <= all.sessions.total
            &&& 0 <= one.sessions.completed <= all.sessions.completed
            &&& one.sessions.total_steps <= all.sessions.total_steps
            &&& one.sessions.total_agents <= all.sessions.total_agents
            &&& 0 <= one.features.total <= all.features.total
            &&& 0 <= one.features.completed <= all.features.completed
        }),
{
    let cut = cutoff(now, days);
    lemma_narrower_filter(
        j.sessions,
        session_counted(Some(project), cut),
        session_counted(None, cut),
        session_completed(),
    );
    lemma_narrower_totals(
        j.sessions,
        session_counted(Some(project), cut),
        session_counted(None, cut),
    );
    lemma_narrower_filter(
        j.features,
        feature_counted(Some(project), cut),
        feature_counted(None, cut),
        feature_completed(),
    );
}

/// A summary over zero days has its cutoff at the instant of the summary:
/// it counts what started or was created strictly after that instant, and
/// so, where nothing did, it counts nothing.
pub proof fn lemma_summary_of_zero_days(j: JournalView, filter: Option<Seq<char>>, now: int)
    ensures
        cutoff(now, 0) == now,
        j.summary(filter, 0, now).sessions == session_totals(
            j.sessions.filter(session_counted(filter, now)),
        ),
        j.summary(filter, 0, now).features == feature_totals(
            j.features.filter(feature_counted(filter, now)),
        ),
        (forall|i: int| 0 <= i < j.sessions.len() ==> (#[trigger] j.sessions[i]).started_at <= now)
            ==> j.summary(filter, 0, now).sessions == (SessionTotalsView {
            total: 0,
            completed: 0,
            total_steps: 0,
            total_agents: 0,
        }),
        (forall|i: int| 0 <= i < j.features.len() ==> (#[trigger] j.features[i]).created_at <= now)
            ==> j.summary(filter, 0, now).features == (FeatureTotalsView { total: 0, completed: 0 }),
{
    reveal(Seq::filter);
    if forall|i: int| 0 <= i < j.sessions.len() ==> (#[trigger] j.sessions[i]).started_at <= now {
        lemma_filter_none(j.sessions, session_counted(filter, now));
        assert(Seq::<SessionView>::empty().filter(session_completed()).len() == 0);
    }
    if forall|i: int| 0 <= i < j.features.len() ==> (#[trigger] j.features[i]).created_at <= now {
        lemma_filter_none(j.features, feature_counted(filter, now));
        assert(Seq::<FeatureView>::empty().filter(feature_completed()).len() == 0);
    }
}

} // verus!
