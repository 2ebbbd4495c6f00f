//! What the journal asks of a relational store: one parameterised statement
//! for each write and each lookup, over the five tables of the schema.
//!
//! A function named after an operation reads the clock; the function of the
//! same name with `_at` takes the time as an argument.

use vstd::prelude::*;
use crate::clock::now_ms;
use crate::error::JournalError;
use crate::records::{
    int_of, str_of, DECISION_IMPLEMENTATION, STATUS_ACTIVE, STATUS_COMPLETED, STATUS_IN_PROGRESS,
    STEP_AGENT_SPAWN,
};
use crate::sql::{
    integer_or_null, optional_integer, optional_text, text, text_or_null, update_statement,
    FeatureColumn, FeatureUpdate, SqlValue, SqlValueView, Statement, StatementView,
};
use crate::stage::{is_stage, Stage};
use crate::summary::{cutoff, MS_PER_DAY};
use crate::token::{is_token, new_token};

verus! {

/// Adds a session row. The store gives it counts of zero.
pub const START_SESSION: &'static str =
    "INSERT INTO sessions (session_id, project, feature_name, initial_request, started_at, status) VALUES (?1, ?2, ?3, ?4, ?5, ?6)";

/// Counts the steps of a session, and those of them of one step type.
pub const COUNT_STEPS: &'static str =
    "SELECT COUNT(*), COUNT(CASE WHEN step_type = ?2 THEN 1 END) FROM steps WHERE session_id = ?1";

/// Closes a session.
pub const END_SESSION: &'static str =
    "UPDATE sessions SET ended_at = ?1, status = ?2, summary = ?3, total_steps = ?4, total_agents_spawned = ?5 WHERE session_id = ?6";

/// Looks up the latest session of one status.
pub const ACTIVE_SESSION: &'static str =
    "SELECT id, session_id, project, feature_name, initial_request, started_at, ended_at, status, summary, total_steps, total_agents_spawned FROM sessions WHERE status = ?1 ORDER BY started_at DESC, id DESC LIMIT 1";

/// Looks up the latest session of one status in one project.
pub const ACTIVE_SESSION_OF_PROJECT: &'static str =
    "SELECT id, session_id, project, feature_name, initial_request, started_at, ended_at, status, summary, total_steps, total_agents_spawned FROM sessions WHERE status = ?1 AND project = ?2 ORDER BY started_at DESC, id DESC LIMIT 1";

/// Reads the greatest step number of a session, 0 if it has no step.
pub const GREATEST_STEP_NUMBER: &'static str =
    "SELECT COALESCE(MAX(step_number), 0) FROM steps WHERE session_id = ?1";

/// Adds a step row.
pub const RECORD_STEP: &'static str =
    "INSERT INTO steps (session_id, step_number, step_type, timestamp, agent_name, agent_model, pipeline_stage, action, target, result, files_created, files_modified, files_deleted, context) VALUES (?1, ?2, ?3, ?4, ?5, ?6, ?7, ?8, ?9, ?10, ?11, ?12, ?13, ?14)";

/// Looks up the row id of a feature.
pub const FIND_FEATURE: &'static str = "SELECT id FROM features WHERE feature_name = ?1";

/// Adds a feature row.
pub const CREATE_FEATURE: &'static str =
    "INSERT INTO features (feature_name, project, created_at, updated_at, current_stage, status, description) VALUES (?1, ?2, ?3, ?4, ?5, ?6, ?7)";

/// Adds a file change row.
pub const RECORD_FILE_CHANGE: &'static str =
    "INSERT INTO file_changes (session_id, step_id, timestamp, file_path, change_type, description) VALUES (?1, ?2, ?3, ?4, ?5, ?6)";

/// Adds a decision row.
pub const RECORD_DECISION: &'static str =
    "INSERT INTO decisions (session_id, feature_name, timestamp, decision_type, question, choice, rationale) VALUES (?1, ?2, ?3, ?4, ?5, ?6, ?7)";

/// Totals the sessions that started after an instant.
pub const SUMMARIZE_SESSIONS: &'static str =
    "SELECT COUNT(*), COUNT(CASE WHEN status = ?2 THEN 1 END), COALESCE(SUM(total_steps), 0), COALESCE(SUM(total_agents_spawned), 0) FROM sessions WHERE started_at > ?1";

/// Totals the sessions of one project that started after an instant.
pub const SUMMARIZE_SESSIONS_OF_PROJECT: &'static str =
    "SELECT COUNT(*), COUNT(CASE WHEN status = ?2 THEN 1 END), COALESCE(SUM(total_steps), 0), COALESCE(SUM(total_agents_spawned), 0) FROM sessions WHERE started_at > ?1 AND project = ?3";

/// Totals the features that were created after an instant.
pub const SUMMARIZE_FEATURES: &'static str =
    "SELECT COUNT(*), COUNT(CASE WHEN status = ?2 THEN 1 END) FROM features WHERE created_at > ?1";

/// Totals the features of one project that were created after an instant.
pub const SUMMARIZE_FEATURES_OF_PROJECT: &'static str =
    "SELECT COUNT(*), COUNT(CASE WHEN status = ?2 THEN 1 END) FROM features WHERE created_at > ?1 AND project = ?3";

/// Puts a statement together.
fn statement(sql: &str, params: Vec<SqlValue>) -> (made: Statement)
    ensures
        made@.sql == sql@,
        made@.params == params@.map_values(|v: SqlValue| v@),
{
    Statement { sql: sql.to_owned(), params }
}

/// The statement that starts a session: active from the start.
pub open spec fn start_session_statement(
    token: Seq<char>,
    project: Seq<char>,
    feature_name: Option<Seq<char>>,
    initial_request: Option<Seq<char>>,
    now: int,
) -> StatementView {
    StatementView {
        sql: START_SESSION@,
        params: seq![
            SqlValueView::Text(token),
            SqlValueView::Text(project),
            text_or_null(feature_name),
            text_or_null(initial_request),
            SqlValueView::Integer(now),
            SqlValueView::Text(STATUS_ACTIVE@),
        ],
    }
}

/// The statement that starts a session under a given token at a given time.
pub fn start_session_at(
    session_id: &str,
    project: &str,
    feature_name: Option<&str>,
    initial_request: Option<&str>,
    now: i64,
) -> (made: Statement)
    ensures
        made@ == start_session_statement(
            session_id@,
            project@,
            str_of(feature_name),
            str_of(initial_request),
            now as int,
        ),
{
    let mut params: Vec<SqlValue> = Vec::new();
    params.push(text(session_id));
    params.push(text(project));
    params.push(optional_text(feature_name));
    params.push(optional_text(initial_request));
    params.push(SqlValue::Integer(now));
    params.push(text(STATUS_ACTIVE));
    let made = statement(START_SESSION, params);
    proof {
        assert(made@.params =~= start_session_statement(
            session_id@,
            project@,
            str_of(feature_name),
            str_of(initial_request),
            now as int,
        ).params);
    }
    made
}

/// A session that is about to start: its fresh token, and the statement
/// that starts it.
#[derive(Debug, PartialEq, Eq)]
pub struct SessionStart {
    pub session_id: String,
    pub statement: Statement,
}

/// The statement that starts a session now, under a fresh random token:
/// [`start_session_at`] with what the token source and the clock give.
pub fn start_session(
    project: &str,
    feature_name: Option<&str>,
    initial_request: Option<&str>,
) -> (start: SessionStart)
    ensures
        is_token(start.session_id@),
        exists|now: int|
            start.statement@ == #[trigger] start_session_statement(
                start.session_id@,
                project@,
                str_of(feature_name),
                str_of(initial_request),
                now,
            ),
{
    let session_id = new_token();
    let now = now_ms();
    let made = start_session_at(session_id.as_str(), project, feature_name, initial_request, now);
    let start = SessionStart { session_id, statement: made };
    proof {
        assert(start.statement@ == start_session_statement(
            start.session_id@,
            project@,
            str_of(feature_name),
            str_of(initial_request),
            now as int,
        ));
    }
    start
}

/// The lookup of the counts that closing a session rolls up: the number of
/// its steps, and the number of those that spawned a sub-agent.
pub open spec fn count_steps_statement(token: Seq<char>) -> StatementView {
    StatementView {
        sql: COUNT_STEPS@,
        params: seq![SqlValueView::Text(token), SqlValueView::Text(STEP_AGENT_SPAWN@)],
    }
}

/// The lookup of the counts that closing a session rolls up.
pub fn count_steps(session_id: &str) -> (made: Statement)
    ensures
        made@ == count_steps_statement(session_id@),
{
    let mut params: Vec<SqlValue> = Vec::new();
    params.push(text(session_id));
    params.push(text(STEP_AGENT_SPAWN));
    let made = statement(COUNT_STEPS, params);
    proof {
        assert(made@.params =~= count_steps_statement(session_id@).params);
    }
    made
}

/// The statement that closes a session with the counts of its steps.
pub open spec fn end_session_statement(
    token: Seq<char>,
    summary: Option<Seq<char>>,
    status: Seq<char>,
    total_steps: int,
    total_agents: int,
    now: int,
) -> StatementView {
    StatementView {
        sql: END_SESSION@,
        params: seq![
            SqlValueView::Integer(now),
            SqlValueView::Text(status),
            text_or_null(summary),
            SqlValueView::Integer(total_steps),
            SqlValueView::Integer(total_agents),
            SqlValueView::Text(token),
        ],
    }
}

/// The statement that closes a session at a given time, with the counts
/// that [`count_steps`] found.
pub fn end_session_at(
    session_id: &str,
    summary: Option<&str>,
    status: &str,
    total_steps: i64,
    total_agents: i64,
    now: i64,
) -> (made: Statement)
    ensures
        made@ == end_session_statement(
            session_id@,
            str_of(summary),
            status@,
            total_steps as int,
            total_agents as int,
            now as int,
        ),
{
    let mut params: Vec<SqlValue> = Vec::new();
    params.push(SqlValue::Integer(now));
    params.push(text(status));
    params.push(optional_text(summary));
    params.push(SqlValue::Integer(total_steps));
    params.push(SqlValue::Integer(total_agents));
    params.push(text(session_id));
    let made = statement(END_SESSION, params);
    proof {
        assert(made@.params =~= end_session_statement(
            session_id@,
            str_of(summary),
            status@,
            total_steps as int,
            total_agents as int,
            now as int,
        ).params);
    }
    made
}

/// The statement that closes a session now: [`end_session_at`] at the time
/// the clock shows.
pub fn end_session(
    session_id: &str,
    summary: Option<&str>,
    status: &str,
    total_steps: i64,
    total_agents: i64,
) -> (made: Statement)
    ensures
        exists|now: int|
            made@ == #[trigger] end_session_statement(
                session_id@,
                str_of(summary),
                status@,
                total_steps as int,
                total_agents as int,
                now,
            ),
{
    let now = now_ms();
    end_session_at(session_id, summary, status, total_steps, total_agents, now)
}

/// The lookup of the latest active session, of one project or of all: of
/// the sessions with the greatest start time it finds the one that was
/// written last.
pub open spec fn active_session_statement(filter: Option<Seq<char>>) -> StatementView {
    match filter {
        Some(project) => StatementView {
            sql: ACTIVE_SESSION_OF_PROJECT@,
            params: seq![SqlValueView::Text(STATUS_ACTIVE@), SqlValueView::Text(project)],
        },
        None => StatementView {
            sql: ACTIVE_SESSION@,
            params: seq![SqlValueView::Text(STATUS_ACTIVE@)],
        },
    }
}

/// The lookup of the latest active session, of one project or of all.
pub fn active_session(project: Option<&str>) -> (made: Statement)
    ensures
        made@ == active_session_statement(str_of(project)),
{
    let mut params: Vec<SqlValue> = Vec::new();
    params.push(text(STATUS_ACTIVE));
    match project {
        Some(name) => {
            params.push(text(name));
            let made = statement(ACTIVE_SESSION_OF_PROJECT, params);
            proof {
                assert(made@.params =~= active_session_statement(str_of(project)).params);
            }
            made
        },
        None => {
            let made = statement(ACTIVE_SESSION, params);
            proof {
                assert(made@.params =~= active_session_statement(str_of(project)).params);
            }
            made
        },
    }
}

/// The lookup of the greatest step number of a session.
pub open spec fn greatest_step_number_statement(token: Seq<char>) -> StatementView {
    StatementView { sql: GREATEST_STEP_NUMBER@, params: seq![SqlValueView::Text(token)] }
}

/// The lookup of the greatest step number of a session, 0 if it has no
/// step.
pub fn greatest_step_number(session_id: &str) -> (made: Statement)
    ensures
        made@ == greatest_step_number_statement(session_id@),
{
    let mut params: Vec<SqlValue> = Vec::new();
    params.push(text(session_id));
    let made = statement(GREATEST_STEP_NUMBER, params);
    proof {
        assert(made@.params =~= greatest_step_number_statement(session_id@).params);
    }
    made
}

/// The statement that records a step under the number after the greatest
/// that its session has.
pub open spec fn record_step_statement(
    token: Seq<char>,
    greatest: int,
    step_type: Seq<char>,
    action: Seq<char>,
    agent_name: Option<Seq<char>>,
    agent_model: Option<Seq<char>>,
    pipeline_stage: Option<int>,
    target: Option<Seq<char>>,
    result: Option<Seq<char>>,
    files_created: Option<Seq<char>>,
    files_modified: Option<Seq<char>>,
    files_deleted: Option<Seq<char>>,
    context: Option<Seq<char>>,
    now: int,
) -> StatementView {
    StatementView {
        sql: RECORD_STEP@,
        params: seq![
            SqlValueView::Text(token),
            SqlValueView::Integer(greatest + 1),
            SqlValueView::Text(step_type),
            SqlValueView::Integer(now),
            text_or_null(agent_name),
            text_or_null(agent_model),
            integer_or_null(pipeline_stage),
            SqlValueView::Text(action),
            text_or_null(target),
            text_or_null(result),
            text_or_null(files_created),
            text_or_null(files_modified),
            text_or_null(files_deleted),
            text_or_null(context),
        ],
    }
}

/// The statement that records a step at a given time, under the number
/// after the greatest that [`greatest_step_number`] found.
///
/// Fails exactly when there is no number after the greatest.
pub fn record_step_at(
    session_id: &str,
    greatest: i64,
    step_type: &str,
    action: &str,
    agent_name: Option<&str>,
    agent_model: Option<&str>,
    pipeline_stage: Option<i64>,
    target: Option<&str>,
    result: Option<&str>,
    files_created: Option<&str>,
    files_modified: Option<&str>,
    files_deleted: Option<&str>,
    context: Option<&str>,
    now: i64,
) -> (outcome: Result<Statement, JournalError>)
    ensures
        outcome is Ok <==> greatest < i64::MAX,
        outcome is Err ==> outcome->Err_0 == JournalError::StoreFull,
        outcome is Ok ==> outcome->Ok_0@ == record_step_statement(
            session_id@,
            greatest as int,
            step_type@,
            action@,
            str_of(agent_name),
            str_of(agent_model),
            int_of(pipeline_stage),
            str_of(target),
            str_of(result),
            str_of(files_created),
            str_of(files_modified),
            str_of(files_deleted),
            str_of(context),
            now as int,
        ),
{
    if greatest == i64::MAX {
        return Err(JournalError::StoreFull);
    }
    let mut params: Vec<SqlValue> = Vec::new();
    params.push(text(session_id));
    params.push(SqlValue::Integer(greatest + 1));
    params.push(text(step_type));
    params.push(SqlValue::Integer(now));
    params.push(optional_text(agent_name));
    params.push(optional_text(agent_model));
    params.push(optional_integer(pipeline_stage));
    params.push(text(action));
    params.push(optional_text(target));
    params.push(optional_text(result));
    params.push(optional_text(files_created));
    params.push(optional_text(files_modified));
    params.push(optional_text(files_deleted));
    params.push(optional_text(context));
    let made = statement(RECORD_STEP, params);
    proof {
        assert(made@.params =~= record_step_statement(
            session_id@,
            greatest as int,
            step_type@,
            action@,
            str_of(agent_name),
            str_of(agent_model),
            int_of(pipeline_stage),
            str_of(target),
            str_of(result),
            str_of(files_created),
            str_of(files_modified),
            str_of(files_deleted),
            str_of(context),
            now as int,
        ).params);
    }
    Ok(made)
}

/// The statement that records a step now: [`record_step_at`] at the time
/// the clock shows.
pub fn record_step(
    session_id: &str,
    greatest: i64,
    step_type: &str,
    action: &str,
    agent_name: Option<&str>,
    agent_model: Option<&str>,
    pipeline_stage: Option<i64>,
    target: Option<&str>,
    result: Option<&str>,
    files_created: Option<&str>,
    files_modified: Option<&str>,
    files_deleted: Option<&str>,
    context: Option<&str>,
) -> (outcome: Result<Statement, JournalError>)
    ensures
        outcome is Ok <==> greatest < i64::MAX,
        outcome is Err ==> outcome->Err_0 == JournalError::StoreFull,
        outcome is Ok ==> exists|now: int|
            outcome->Ok_0@ == #[trigger] record_step_statement(
                session_id@,
                greatest as int,
                step_type@,
                action@,
                str_of(agent_name),
                str_of(agent_model),
                int_of(pipeline_stage),
                str_of(target),
                str_of(result),
                str_of(files_created),
                str_of(files_modified),
                str_of(files_deleted),
                str_of(context),
                now,
            ),
{
    let now = now_ms();
    record_step_at(
        session_id,
        greatest,
        step_type,
        action,
        agent_name,
        agent_model,
        pipeline_stage,
        target,
        result,
        files_created,
        files_modified,
        files_deleted,
        context,
        now,
    )
}

/// The lookup of the row id of a feature.
pub open spec fn find_feature_statement(name: Seq<char>) -> StatementView {
    StatementView { sql: FIND_FEATURE@, params: seq![SqlValueView::Text(name)] }
}

/// The lookup of the row id of a feature. It finds no row where the feature
/// is not known.
pub fn find_feature(feature_name: &str) -> (made: Statement)
    ensures
        made@ == find_feature_statement(feature_name@),
{
    let mut params: Vec<SqlValue> = Vec::new();
    params.push(text(feature_name));
    let made = statement(FIND_FEATURE, params);
    proof {
        assert(made@.params =~= find_feature_statement(feature_name@).params);
    }
    made
}

/// The statement that adds the row of a feature. A stage that is left out
/// is 0, and a status that is left out is "in_progress".
pub open spec fn create_feature_statement(
    name: Seq<char>,
    project: Seq<char>,
    stage: Option<int>,
    status: Option<Seq<char>>,
    description: Option<Seq<char>>,
    now: int,
) -> StatementView {
    StatementView {
        sql: CREATE_FEATURE@,
        params: seq![
            SqlValueView::Text(name),
            SqlValueView::Text(project),
            SqlValueView::Integer(now),
            SqlValueView::Integer(now),
            SqlValueView::Integer(
                match stage {
                    Some(s) => s,
                    None => 0,
                },
            ),
            SqlValueView::Text(
                match status {
                    Some(s) => s,
                    None => STATUS_IN_PROGRESS@,
                },
            ),
            text_or_null(description),
        ],
    }
}

/// The columns that a partial update of a feature writes: the time of the
/// update always, and after it each of the stage, the status and the
/// description that was supplied.
pub open spec fn supplied_columns(
    stage: Option<int>,
    status: Option<Seq<char>>,
    description: Option<Seq<char>>,
) -> Seq<crate::sql::ColumnView> {
    seq![crate::sql::ColumnView::UpdatedAt] + (if stage is Some {
        seq![crate::sql::ColumnView::CurrentStage]
    } else {
        seq![]
    }) + (if status is Some {
        seq![crate::sql::ColumnView::Status]
    } else {
        seq![]
    }) + (if description is Some {
        seq![crate::sql::ColumnView::Description]
    } else {
        seq![]
    })
}

/// The values that a partial update of a feature writes, each at the place
/// of its column.
pub open spec fn supplied_values(
    stage: Option<int>,
    status: Option<Seq<char>>,
    description: Option<Seq<char>>,
    now: int,
) -> Seq<SqlValueView> {
    seq![SqlValueView::Integer(now)] + (match stage {
        Some(s) => seq![SqlValueView::Integer(s)],
        None => seq![],
    }) + (match status {
        Some(s) => seq![SqlValueView::Text(s)],
        None => seq![],
    }) + (match description {
        Some(d) => seq![SqlValueView::Text(d)],
        None => seq![],
    })
}

/// The statement that references a feature: for a feature that is known,
/// the partial update that writes exactly what was supplied and never
/// names a column that was left out; for one that is not, the new row.
pub open spec fn create_or_update_feature_statement(
    known: bool,
    name: Seq<char>,
    project: Seq<char>,
    stage: Option<int>,
    status: Option<Seq<char>>,
    description: Option<Seq<char>>,
    now: int,
) -> StatementView {
    if known {
        update_statement(
            supplied_columns(stage, status, description),
            supplied_values(stage, status, description, now),
            name,
        )
    } else {
        create_feature_statement(name, project, stage, status, description, now)
    }
}

/// The statement that references a feature at a given time, where
/// [`find_feature`] found a row (`known`) or found none.
pub fn create_or_update_feature_at(
    known: bool,
    feature_name: &str,
    project: &str,
    current_stage: Option<i64>,
    status: Option<&str>,
    description: Option<&str>,
    now: i64,
) -> (made: Statement)
    ensures
        made@ == create_or_update_feature_statement(
            known,
            feature_name@,
            project@,
            int_of(current_stage),
            str_of(status),
            str_of(description),
            now as int,
        ),
{
    if known {
        let mut update = FeatureUpdate::new(FeatureColumn::UpdatedAt, SqlValue::Integer(now));
        if let Some(stage) = current_stage {
            update.set(FeatureColumn::CurrentStage, SqlValue::Integer(stage));
        }
        if let Some(label) = status {
            update.set(FeatureColumn::Status, text(label));
        }
        if let Some(words) = description {
            update.set(FeatureColumn::Description, text(words));
        }
        proof {
            assert(update.columns() =~= supplied_columns(
                int_of(current_stage),
                str_of(status),
                str_of(description),
            ));
            assert(update.values() =~= supplied_values(
                int_of(current_stage),
                str_of(status),
                str_of(description),
                now as int,
            ));
        }
        update.finish(feature_name)
    } else {
        let mut params: Vec<SqlValue> = Vec::new();
        params.push(text(feature_name));
        params.push(text(project));
        params.push(SqlValue::Integer(now));
        params.push(SqlValue::Integer(now));
        params.push(
            SqlValue::Integer(
                match current_stage {
                    Some(stage) => stage,
                    None => 0,
                },
            ),
        );
        params.push(
            match status {
                Some(label) => text(label),
                None => text(STATUS_IN_PROGRESS),
            },
        );
        params.push(optional_text(description));
        let made = statement(CREATE_FEATURE, params);
        proof {
            assert(made@.params =~= create_feature_statement(
                feature_name@,
                project@,
                int_of(current_stage),
                str_of(status),
                str_of(description),
                now as int,
            ).params);
        }
        made
    }
}

/// The statement that references a feature now:
/// [`create_or_update_feature_at`] at the time the clock shows.
pub fn create_or_update_feature(
    known: bool,
    feature_name: &str,
    project: &str,
    current_stage: Option<i64>,
    status: Option<&str>,
    description: Option<&str>,
) -> (made: Statement)
    ensures
        exists|now: int|
            made@ == #[trigger] create_or_update_feature_statement(
                known,
                feature_name@,
                project@,
                int_of(current_stage),
                str_of(status),
                str_of(description),
                now,
            ),
{
    let now = now_ms();
    create_or_update_feature_at(
        known,
        feature_name,
        project,
        current_stage,
        status,
        description,
        now,
    )
}

/// The statement that completes a stage of a feature: it writes the
/// completion time of that stage, the stage the feature stands at, and the
/// time of the update.
pub open spec fn mark_stage_complete_statement(name: Seq<char>, stage: int, now: int) -> StatementView {
    update_statement(
        seq![
            crate::sql::ColumnView::StageCompleted(stage),
            crate::sql::ColumnView::CurrentStage,
            crate::sql::ColumnView::UpdatedAt,
        ],
        seq![SqlValueView::Integer(now), SqlValueView::Integer(stage), SqlValueView::Integer(now)],
        name,
    )
}

/// The statement that completes a stage of a feature at a given time. The
/// number of the stage selects a column only after it was checked against
/// the fixed stages.
///
/// Fails exactly when the stage is not one of the fixed stages.
pub fn mark_stage_complete_at(
    feature_name: &str,
    stage: i64,
    now: i64,
) -> (outcome: Result<Statement, JournalError>)
    ensures
        outcome is Ok <==> is_stage(stage as int),
        outcome is Err ==> outcome->Err_0 == JournalError::InvalidStage,
        outcome is Ok ==> outcome->Ok_0@ == mark_stage_complete_statement(
            feature_name@,
            stage as int,
            now as int,
        ),
{
    match Stage::new(stage) {
        Some(checked) => {
            let mut update = FeatureUpdate::new(
                FeatureColumn::StageCompleted(checked),
                SqlValue::Integer(now),
            );
            update.set(FeatureColumn::CurrentStage, SqlValue::Integer(stage));
            update.set(FeatureColumn::UpdatedAt, SqlValue::Integer(now));
            proof {
                assert(update.columns() =~= seq![
                    crate::sql::ColumnView::StageCompleted(stage as int),
                    crate::sql::ColumnView::CurrentStage,
                    crate::sql::ColumnView::UpdatedAt,
                ]);
                assert(update.values() =~= seq![
                    SqlValueView::Integer(now as int),
                    SqlValueView::Integer(stage as int),
                    SqlValueView::Integer(now as int),
                ]);
            }
            Ok(update.finish(feature_name))
        },
        None => Err(JournalError::InvalidStage),
    }
}

/// The statement that completes a stage of a feature now:
/// [`mark_stage_complete_at`] at the time the clock shows.
pub fn mark_stage_complete(
    feature_name: &str,
    stage: i64,
) -> (outcome: Result<Statement, JournalError>)
    ensures
        outcome is Ok <==> is_stage(stage as int),
        outcome is Err ==> outcome->Err_0 == JournalError::InvalidStage,
        outcome is Ok ==> exists|now: int|
            outcome->Ok_0@ == #[trigger] mark_stage_complete_statement(
                feature_name@,
                stage as int,
                now,
            ),
{
    let now = now_ms();
    mark_stage_complete_at(feature_name, stage, now)
}

/// The statement that records a change to a file.
pub open spec fn record_file_change_statement(
    token: Seq<char>,
    file_path: Seq<char>,
    change_type: Seq<char>,
    step_id: Option<int>,
    description: Option<Seq<char>>,
    now: int,
) -> StatementView {
    StatementView {
        sql: RECORD_FILE_CHANGE@,
        params: seq![
            SqlValueView::Text(token),
            integer_or_null(step_id),
            SqlValueView::Integer(now),
            SqlValueView::Text(file_path),
            SqlValueView::Text(change_type),
            text_or_null(description),
        ],
    }
}

/// The statement that records a change to a file at a given time.
pub fn record_file_change_at(
    session_id: &str,
    file_path: &str,
    change_type: &str,
    step_id: Option<i64>,
    description: Option<&str>,
    now: i64,
) -> (made: Statement)
    ensures
        made@ == record_file_change_statement(
            session_id@,
            file_path@,
            change_type@,
            int_of(step_id),
            str_of(description),
            now as int,
        ),
{
    let mut params: Vec<SqlValue> = Vec::new();
    params.push(text(session_id));
    params.push(optional_integer(step_id));
    params.push(SqlValue::Integer(now));
    params.push(text(file_path));
    params.push(text(change_type));
    params.push(optional_text(description));
    let made = statement(RECORD_FILE_CHANGE, params);
    proof {
        assert(made@.params =~= record_file_change_statement(
            session_id@,
            file_path@,
            change_type@,
            int_of(step_id),
            str_of(description),
            now as int,
        ).params);
    }
    made
}

/// The statement that records a change to a file now:
/// [`record_file_change_at`] at the time the clock shows.
pub fn record_file_change(
    session_id: &str,
    file_path: &str,
    change_type: &str,
    step_id: Option<i64>,
    description: Option<&str>,
) -> (made: Statement)
    ensures
        exists|now: int|
            made@ == #[trigger] record_file_change_statement(
                session_id@,
                file_path@,
                change_type@,
                int_of(step_id),
                str_of(description),
                now,
            ),
{
    let now = now_ms();
    record_file_change_at(session_id, file_path, change_type, step_id, description, now)
}

/// The statement that records a decision. A decision type that is left out
/// is "implementation".
pub open spec fn record_decision_statement(
    token: Seq<char>,
    question: Seq<char>,
    choice: Seq<char>,
    decision_type: Option<Seq<char>>,
    feature_name: Option<Seq<char>>,
    rationale: Option<Seq<char>>,
    now: int,
) -> StatementView {
    StatementView {
        sql: RECORD_DECISION@,
        params: seq![
            SqlValueView::Text(token),
            text_or_null(feature_name),
            SqlValueView::Integer(now),
            SqlValueView::Text(
                match decision_type {
                    Some(t) => t,
                    None => DECISION_IMPLEMENTATION@,
                },
            ),
            SqlValueView::Text(question),
            SqlValueView::Text(choice),
            text_or_null(rationale),
        ],
    }
}

/// The statement that records a decision at a given time.
pub fn record_decision_at(
    session_id: &str,
    question: &str,
    choice: &str,
    decision_type: Option<&str>,
    feature_name: Option<&str>,
    rationale: Option<&str>,
    now: i64,
) -> (made: Statement)
    ensures
        made@ == record_decision_statement(
            session_id@,
            question@,
            choice@,
            str_of(decision_type),
            str_of(feature_name),
            str_of(rationale),
            now as int,
        ),
{
    let mut params: Vec<SqlValue> = Vec::new();
    params.push(text(session_id));
    params.push(optional_text(feature_name));
    params.push(SqlValue::Integer(now));
    params.push(
        match decision_type {
            Some(kind) => text(kind),
            None => text(DECISION_IMPLEMENTATION),
        },
    );
    params.push(text(question));
    params.push(text(choice));
    params.push(optional_text(rationale));
    let made = statement(RECORD_DECISION, params);
    proof {
        assert(made@.params =~= record_decision_statement(
            session_id@,
            question@,
            choice@,
            str_of(decision_type),
            str_of(feature_name),
            str_of(rationale),
            now as int,
        ).params);
    }
    made
}

/// The statement that records a decision now: [`record_decision_at`] at
/// the time the clock shows.
pub fn record_decision(
    session_id: &str,
    question: &str,
    choice: &str,
    decision_type: Option<&str>,
    feature_name: Option<&str>,
    rationale: Option<&str>,
) -> (made: Statement)
    ensures
        exists|now: int|
            made@ == #[trigger] record_decision_statement(
                session_id@,
                question@,
                choice@,
                str_of(decision_type),
                str_of(feature_name),
                str_of(rationale),
                now,
            ),
{
    let now = now_ms();
    record_decision_at(session_id, question, choice, decision_type, feature_name, rationale, now)
}

/// The cutoff of a summary as a value that can be bound: the cutoff itself
/// where it fits in 64 bits, and the nearest value that does where it does
/// not.
pub open spec fn bound_cutoff(now: int, days: int) -> int {
    let exact = cutoff(now, days);
    if exact > i64::MAX {
        i64::MAX as int
    } else if exact < i64::MIN {
        i64::MIN as int
    } else {
        exact
    }
}

/// The query that totals the sessions of a window, of one project or of
/// all.
pub open spec fn summarize_sessions_statement(
    filter: Option<Seq<char>>,
    days: int,
    now: int,
) -> StatementView {
    match filter {
        Some(project) => StatementView {
            sql: SUMMARIZE_SESSIONS_OF_PROJECT@,
            params: seq![
                SqlValueView::Integer(bound_cutoff(now, days)),
                SqlValueView::Text(STATUS_COMPLETED@),
                SqlValueView::Text(project),
            ],
        },
        None => StatementView {
            sql: SUMMARIZE_SESSIONS@,
            params: seq![
                SqlValueView::Integer(bound_cutoff(now, days)),
                SqlValueView::Text(STATUS_COMPLETED@),
            ],
        },
    }
}

/// The query that totals the features of a window, of one project or of
/// all.
pub open spec fn summarize_features_statement(
    filter: Option<Seq<char>>,
    days: int,
    now: int,
) -> StatementView {
    match filter {
        Some(project) => StatementView {
            sql: SUMMARIZE_FEATURES_OF_PROJECT@,
            params: seq![
                SqlValueView::Integer(bound_cutoff(now, days)),
                SqlValueView::Text(STATUS_COMPLETED@),
                SqlValueView::Text(project),
            ],
        },
        None => StatementView {
            sql: SUMMARIZE_FEATURES@,
            params: seq![
                SqlValueView::Integer(bound_cutoff(now, days)),
                SqlValueView::Text(STATUS_COMPLETED@),
            ],
        },
    }
}

/// The two queries of a journey summary.
#[derive(Debug, PartialEq, Eq)]
pub struct SummaryQueries {
    pub sessions: Statement,
    pub features: Statement,
}

/// Whether two queries are those of the summary over the `days` days that
/// end at `now`.
pub open spec fn is_journey_summary(
    queries: SummaryQueries,
    filter: Option<Seq<char>>,
    days: int,
    now: int,
) -> bool {
    &&& queries.sessions@ == summarize_sessions_statement(filter, days, now)
    &&& queries.features@ == summarize_features_statement(filter, days, now)
}

/// The queries of the summary over the `days` days that end at `now`, for
/// one project or for all. Each finds one row: the counts and sums that the
/// summary reports.
pub fn journey_summary_at(project: Option<&str>, days: i64, now: i64) -> (queries: SummaryQueries)
    ensures
        is_journey_summary(queries, str_of(project), days as int, now as int),
{
    let span: i128 = (days as i128) * (MS_PER_DAY as i128);
    assert(span == days * MS_PER_DAY);
    let exact: i128 = now as i128 - span;
    let bound: i64 = if exact > i64::MAX as i128 {
        i64::MAX
    } else if exact < i64::MIN as i128 {
        i64::MIN
    } else {
        exact as i64
    };
    let mut of_sessions: Vec<SqlValue> = Vec::new();
    of_sessions.push(SqlValue::Integer(bound));
    of_sessions.push(text(STATUS_COMPLETED));
    let mut of_features: Vec<SqlValue> = Vec::new();
    of_features.push(SqlValue::Integer(bound));
    of_features.push(text(STATUS_COMPLETED));
    let queries = match project {
        Some(name) => {
            of_sessions.push(text(name));
            of_features.push(text(name));
            SummaryQueries {
                sessions: statement(SUMMARIZE_SESSIONS_OF_PROJECT, of_sessions),
                features: statement(SUMMARIZE_FEATURES_OF_PROJECT, of_features),
            }
        },
        None => SummaryQueries {
            sessions: statement(SUMMARIZE_SESSIONS, of_sessions),
            features: statement(SUMMARIZE_FEATURES, of_features),
        },
    };
    proof {
        assert(queries.sessions@.params =~= summarize_sessions_statement(
            str_of(project),
            days as int,
            now as int,
        ).params);
        assert(queries.features@.params =~= summarize_features_statement(
            str_of(project),
            days as int,
            now as int,
        ).params);
    }
    queries
}

/// The queries of the summary over the `days` days that end now:
/// [`journey_summary_at`] at the time the clock shows.
pub fn journey_summary(project: Option<&str>, days: i64) -> (queries: SummaryQueries)
    ensures
        exists|now: int| #[trigger] is_journey_summary(queries, str_of(project), days as int, now),
{
    let now = now_ms();
    let queries = journey_summary_at(project, days, now);
    assert(is_journey_summary(queries, str_of(project), days as int, now as int));
    queries
}

/// The bound cutoff lets the same instants pass as the cutoff itself: an
/// instant that fits in 64 bits lies after the one exactly when it lies
/// after the other, but for the least instant of all where the cutoff lies
/// below it.
pub proof fn lemma_bound_cutoff(now: int, days: int, instant: int)
    requires
        i64::MIN <= instant <= i64::MAX,
    ensures
        i64::MIN <= bound_cutoff(now, days) <= i64::MAX,
        instant > i64::MIN || cutoff(now, days) >= i64::MIN ==> (instant > bound_cutoff(now, days)
            <==> instant > cutoff(now, days)),
{
}

/// The text of the statement that references a feature holds nothing that
/// was supplied from outside: it is the same for every name, project, stage,
/// status, description and time, and depends only on whether the feature is
/// known and on which of the stage, the status and the description were
/// supplied at all.
pub proof fn lemma_feature_text_holds_no_value(
    known: bool,
    name: Seq<char>,
    project: Seq<char>,
    stage: Option<int>,
    status: Option<Seq<char>>,
    description: Option<Seq<char>>,
    now: int,
    other_name: Seq<char>,
    other_project: Seq<char>,
    other_stage: Option<int>,
    other_status: Option<Seq<char>>,
    other_description: Option<Seq<char>>,
    other_now: int,
)
    requires
        stage is Some <==> other_stage is Some,
        status is Some <==> other_status is Some,
        description is Some <==> other_description is Some,
    ensures
        create_or_update_feature_statement(known, name, project, stage, status, description, now).sql
            == create_or_update_feature_statement(
            known,
            other_name,
            other_project,
            other_stage,
            other_status,
            other_description,
            other_now,
        ).sql,
{
    assert(supplied_columns(stage, status, description) =~= supplied_columns(
        other_stage,
        other_status,
        other_description,
    ));
}

/// The text of the statement that completes a stage holds nothing from
/// outside but the number of a stage that was checked: it is the same for
/// every name and time.
pub proof fn lemma_stage_text_holds_no_value(
    name: Seq<char>,
    stage: int,
    now: int,
    other_name: Seq<char>,
    other_now: int,
)
    ensures
        mark_stage_complete_statement(name, stage, now).sql == mark_stage_complete_statement(
            other_name,
            stage,
            other_now,
        ).sql,
{
}

} // verus!
