use kratos_memory::error::JournalError;
use kratos_memory::journal::Journal;
use kratos_memory::records::{Decision, Feature, FileChange, Session, Step, STAGE_COUNT};
use kratos_memory::schema::{schema, CONNECTION_SETUP};
use kratos_memory::sql::{SqlValue, Statement};
use kratos_memory::statements::{
    active_session, count_steps, create_or_update_feature_at, end_session_at, find_feature,
    greatest_step_number, journey_summary_at, mark_stage_complete_at, record_decision_at,
    record_file_change_at, record_step_at, start_session_at,
};
use kratos_memory::summary::{FeatureTotals, SessionTotals, Summary, MS_PER_DAY};
use rusqlite::types::Value;
use rusqlite::{params_from_iter, Connection, OptionalExtension};

fn open() -> Connection {
    let conn = Connection::open_in_memory().unwrap();
    conn.execute_batch(CONNECTION_SETUP).unwrap();
    conn.execute_batch(&schema()).unwrap();
    conn
}

fn values(statement: &Statement) -> Vec<Value> {
    statement
        .params
        .iter()
        .map(|v| match v {
            SqlValue::Null => Value::Null,
            SqlValue::Integer(n) => Value::Integer(*n),
            SqlValue::Text(s) => Value::Text(s.clone()),
        })
        .collect()
}

fn run(conn: &Connection, statement: &Statement) -> rusqlite::Result<usize> {
    conn.execute(&statement.sql, params_from_iter(values(statement)))
}

fn one(conn: &Connection, statement: &Statement) -> i64 {
    conn.query_row(&statement.sql, params_from_iter(values(statement)), |row| row.get(0)).unwrap()
}

/// A store and a journal that are given the same operations.
struct Pair {
    conn: Connection,
    journal: Journal,
}

fn pair() -> Pair {
    Pair { conn: open(), journal: Journal::new() }
}

fn start(pair: &mut Pair, token: &str, project: &str, feature: Option<&str>, request: Option<&str>, now: i64) {
    let stored = run(&pair.conn, &start_session_at(token, project, feature, request, now));
    let kept = pair.journal.start_session_at(token, project, feature, request, now);
    assert_eq!(stored.is_ok(), kept.is_ok());
}

fn record(pair: &mut Pair, token: &str, step_type: &str, stage: Option<i64>, target: Option<&str>, now: i64) {
    let greatest = one(&pair.conn, &greatest_step_number(token));
    let statement =
        record_step_at(token, greatest, step_type, "act", Some("agent"), None, stage, target, None, None, None, None, Some("{}"), now)
            .unwrap();
    let stored = run(&pair.conn, &statement).map(|_| pair.conn.last_insert_rowid());
    let kept = pair.journal.record_step_at(
        token,
        step_type,
        "act",
        Some("agent"),
        None,
        stage,
        target,
        None,
        None,
        None,
        None,
        Some("{}"),
        now,
    );
    match kept {
        Ok(id) => assert_eq!(stored.unwrap(), id),
        Err(e) => {
            assert_eq!(e, JournalError::UnknownSession);
            assert!(stored.is_err());
        }
    }
}

fn end(pair: &mut Pair, token: &str, summary: Option<&str>, status: &str, now: i64) {
    let counts = count_steps(token);
    let (steps, agents): (i64, i64) = pair
        .conn
        .query_row(&counts.sql, params_from_iter(values(&counts)), |row| Ok((row.get(0)?, row.get(1)?)))
        .unwrap();
    run(&pair.conn, &end_session_at(token, summary, status, steps, agents, now)).unwrap();
    pair.journal.end_session_at(token, summary, status, now);
}

fn feature(
    pair: &mut Pair,
    name: &str,
    project: &str,
    stage: Option<i64>,
    status: Option<&str>,
    description: Option<&str>,
    now: i64,
) {
    let lookup = find_feature(name);
    let known: Option<i64> = pair
        .conn
        .query_row(&lookup.sql, params_from_iter(values(&lookup)), |row| row.get(0))
        .optional()
        .unwrap();
    run(
        &pair.conn,
        &create_or_update_feature_at(known.is_some(), name, project, stage, status, description, now),
    )
    .unwrap();
    let stored = match known {
        Some(id) => id,
        None => pair.conn.last_insert_rowid(),
    };
    let kept = pair.journal.create_or_update_feature_at(name, project, stage, status, description, now).unwrap();
    assert_eq!(stored, kept);
}

fn mark(pair: &mut Pair, name: &str, stage: i64, now: i64) {
    let planned = mark_stage_complete_at(name, stage, now);
    let kept = pair.journal.mark_stage_complete_at(name, stage, now);
    match planned {
        Ok(statement) => {
            run(&pair.conn, &statement).unwrap();
            assert_eq!(kept, Ok(()));
        }
        Err(e) => assert_eq!(kept, Err(e)),
    }
}

fn change(pair: &mut Pair, token: &str, path: &str, kind: &str, step_id: Option<i64>, now: i64) {
    let stored = run(&pair.conn, &record_file_change_at(token, path, kind, step_id, Some("why"), now))
        .map(|_| pair.conn.last_insert_rowid());
    let kept = pair.journal.record_file_change_at(token, path, kind, step_id, Some("why"), now);
    match kept {
        Ok(id) => assert_eq!(stored.unwrap(), id),
        Err(_) => assert!(stored.is_err()),
    }
}

fn decide(pair: &mut Pair, token: &str, kind: Option<&str>, feature: Option<&str>, now: i64) {
    let stored = run(&pair.conn, &record_decision_at(token, "q", "c", kind, feature, None, now))
        .map(|_| pair.conn.last_insert_rowid());
    let kept = pair.journal.record_decision_at(token, "q", "c", kind, feature, None, now);
    match kept {
        Ok(id) => assert_eq!(stored.unwrap(), id),
        Err(_) => assert!(stored.is_err()),
    }
}

fn stored_sessions(conn: &Connection) -> Vec<Session> {
    let mut statement = conn
        .prepare("SELECT id, session_id, project, feature_name, initial_request, started_at, ended_at, status, summary, total_steps, total_agents_spawned FROM sessions ORDER BY id")
        .unwrap();
    let rows = statement
        .query_map((), |row| {
            Ok(Session {
                id: row.get(0)?,
                session_id: row.get(1)?,
                project: row.get(2)?,
                feature_name: row.get(3)?,
                initial_request: row.get(4)?,
                started_at: row.get(5)?,
                ended_at: row.get(6)?,
                status: row.get(7)?,
                summary: row.get(8)?,
                total_steps: row.get(9)?,
                total_agents_spawned: row.get(10)?,
            })
        })
        .unwrap();
    rows.map(|r| r.unwrap()).collect()
}

fn stored_steps(conn: &Connection) -> Vec<Step> {
    let mut statement = conn
        .prepare("SELECT id, session_id, step_number, step_type, timestamp, agent_name, agent_model, pipeline_stage, action, target, result, files_created, files_modified, files_deleted, context FROM steps ORDER BY id")
        .unwrap();
    let rows = statement
        .query_map((), |row| {
            Ok(Step {
                id: row.get(0)?,
                session_id: row.get(1)?,
                step_number: row.get(2)?,
                step_type: row.get(3)?,
                timestamp: row.get(4)?,
                agent_name: row.get(5)?,
                agent_model: row.get(6)?,
                pipeline_stage: row.get(7)?,
                action: row.get(8)?,
                target: row.get(9)?,
                result: row.get(10)?,
                files_created: row.get(11)?,
                files_modified: row.get(12)?,
                files_deleted: row.get(13)?,
                context: row.get(14)?,
            })
        })
        .unwrap();
    rows.map(|r| r.unwrap()).collect()
}

fn stored_features(conn: &Connection) -> Vec<Feature> {
    let mut statement = conn
        .prepare("SELECT id, feature_name, project, created_at, updated_at, current_stage, status, description, stage_1_completed, stage_2_completed, stage_3_completed, stage_4_completed, stage_5_completed, stage_6_completed, stage_7_completed, stage_8_completed FROM features ORDER BY id")
        .unwrap();
    let rows = statement
        .query_map((), |row| {
            let mut stage_completed = [None; STAGE_COUNT];
            for slot in 0..STAGE_COUNT {
                stage_completed[slot] = row.get(8 + slot)?;
            }
            Ok(Feature {
                id: row.get(0)?,
                feature_name: row.get(1)?,
                project: row.get(2)?,
                created_at: row.get(3)?,
                updated_at: row.get(4)?,
                current_stage: row.get(5)?,
                status: row.get(6)?,
                description: row.get(7)?,
                stage_completed,
            })
        })
        .unwrap();
    rows.map(|r| r.unwrap()).collect()
}

fn stored_file_changes(conn: &Connection) -> Vec<FileChange> {
    let mut statement = conn
        .prepare("SELECT id, session_id, step_id, timestamp, file_path, change_type, description FROM file_changes ORDER BY id")
        .unwrap();
    let rows = statement
        .query_map((), |row| {
            Ok(FileChange {
                id: row.get(0)?,
                session_id: row.get(1)?,
                step_id: row.get(2)?,
                timestamp: row.get(3)?,
                file_path: row.get(4)?,
                change_type: row.get(5)?,
                description: row.get(6)?,
            })
        })
        .unwrap();
    rows.map(|r| r.unwrap()).collect()
}

fn stored_decisions(conn: &Connection) -> Vec<Decision> {
    let mut statement = conn
        .prepare("SELECT id, session_id, feature_name, timestamp, decision_type, question, choice, rationale FROM decisions ORDER BY id")
        .unwrap();
    let rows = statement
        .query_map((), |row| {
            Ok(Decision {
                id: row.get(0)?,
                session_id: row.get(1)?,
                feature_name: row.get(2)?,
                timestamp: row.get(3)?,
                decision_type: row.get(4)?,
                question: row.get(5)?,
                choice: row.get(6)?,
                rationale: row.get(7)?,
            })
        })
        .unwrap();
    rows.map(|r| r.unwrap()).collect()
}

fn stored_summary(conn: &Connection, project: Option<&str>, days: i64, now: i64) -> Summary {
    let queries = journey_summary_at(project, days, now);
    let sessions = conn
        .query_row(&queries.sessions.sql, params_from_iter(values(&queries.sessions)), |row| {
            Ok(SessionTotals {
                total: row.get(0)?,
                completed: row.get(1)?,
                total_steps: row.get(2)?,
                total_agents: row.get(3)?,
            })
        })
        .unwrap();
    let features = conn
        .query_row(&queries.features.sql, params_from_iter(values(&queries.features)), |row| {
            Ok(FeatureTotals { total: row.get(0)?, completed: row.get(1)? })
        })
        .unwrap();
    Summary::from_totals(project, days, sessions, features)
}

fn stored_active(conn: &Connection, project: Option<&str>) -> Option<String> {
    let lookup = active_session(project);
    conn.query_row(&lookup.sql, params_from_iter(values(&lookup)), |row| row.get(1)).optional().unwrap()
}

fn assert_same(pair: &Pair) {
    assert_eq!(&stored_sessions(&pair.conn), pair.journal.sessions());
    assert_eq!(&stored_steps(&pair.conn), pair.journal.steps());
    assert_eq!(&stored_features(&pair.conn), pair.journal.features());
    assert_eq!(&stored_file_changes(&pair.conn), pair.journal.file_changes());
    assert_eq!(&stored_decisions(&pair.conn), pair.journal.decisions());
}

fn busy_pair() -> Pair {
    let mut pair = pair();
    start(&mut pair, "a", "X", Some("f1"), Some("build it"), 100);
    start(&mut pair, "b", "Y", None, None, 200);
    record(&mut pair, "a", "agent_spawn", Some(1), Some("prd"), 210);
    record(&mut pair, "b", "work", None, None, 220);
    record(&mut pair, "a", "work", Some(2), None, 230);
    record(&mut pair, "b", "agent_spawn", None, Some("x"), 240);
    record(&mut pair, "a", "agent_spawn", None, None, 250);
    start(&mut pair, "c", "X", None, None, 300);
    record(&mut pair, "c", "work", None, None, 310);
    feature(&mut pair, "f1", "X", None, None, None, 150);
    feature(&mut pair, "f2", "Y", Some(2), Some("completed"), Some("second"), 250);
    feature(&mut pair, "f1", "X", None, Some("completed"), None, 260);
    feature(&mut pair, "f3", "X", None, None, None, 350);
    mark(&mut pair, "f1", 1, 270);
    mark(&mut pair, "f1", 2, 280);
    mark(&mut pair, "f3", 8, 360);
    change(&mut pair, "a", "src/a.rs", "created", Some(1), 215);
    change(&mut pair, "b", "src/b.rs", "deleted", None, 225);
    decide(&mut pair, "a", None, Some("f1"), 216);
    decide(&mut pair, "c", Some("architecture"), None, 316);
    end(&mut pair, "a", Some("done"), "completed", 400);
    end(&mut pair, "b", None, "aborted", 410);
    pair
}

#[test]
fn store_and_journal_hold_the_same_rows() {
    let pair = busy_pair();
    assert_same(&pair);
    assert_eq!(pair.journal.sessions().len(), 3);
    assert_eq!(pair.journal.steps().len(), 6);
    assert_eq!(pair.journal.sessions()[0].total_steps, 3);
    assert_eq!(pair.journal.sessions()[0].total_agents_spawned, 2);
}

#[test]
fn store_numbers_steps_as_the_journal_does() {
    let mut pair = pair();
    start(&mut pair, "a", "X", None, None, 1);
    start(&mut pair, "b", "X", None, None, 2);
    for token in ["a", "b", "b", "a", "b", "a", "a"] {
        record(&mut pair, token, "work", None, None, 3);
    }
    let numbers: Vec<(String, i64)> =
        stored_steps(&pair.conn).into_iter().map(|s| (s.session_id, s.step_number)).collect();
    let expected: Vec<(String, i64)> = [("a", 1), ("b", 1), ("b", 2), ("a", 2), ("b", 3), ("a", 3), ("a", 4)]
        .iter()
        .map(|(t, n)| (String::from(*t), *n))
        .collect();
    assert_eq!(numbers, expected);
    assert_same(&pair);
}

#[test]
fn store_refuses_what_the_journal_refuses() {
    let mut pair = pair();
    start(&mut pair, "a", "X", None, None, 1);
    start(&mut pair, "a", "Y", None, None, 2);
    record(&mut pair, "ghost", "work", None, None, 3);
    change(&mut pair, "ghost", "p", "created", None, 4);
    decide(&mut pair, "ghost", None, None, 5);
    assert_same(&pair);
    assert_eq!(pair.journal.sessions().len(), 1);
    assert!(pair.journal.steps().is_empty());
    assert!(pair.journal.file_changes().is_empty());
    assert!(pair.journal.decisions().is_empty());
}

#[test]
fn store_closes_sessions_as_the_journal_does() {
    let mut pair = pair();
    start(&mut pair, "a", "X", None, None, 1);
    record(&mut pair, "a", "agent_spawn", None, None, 2);
    end(&mut pair, "a", Some("first"), "aborted", 3);
    record(&mut pair, "a", "work", None, None, 4);
    end(&mut pair, "a", None, "completed", 5);
    end(&mut pair, "ghost", None, "completed", 6);
    assert_same(&pair);
    let row = &stored_sessions(&pair.conn)[0];
    assert_eq!((row.total_steps, row.total_agents_spawned), (2, 1));
    assert_eq!(row.summary, None);
}

#[test]
fn store_updates_features_as_the_journal_does() {
    let mut pair = pair();
    feature(&mut pair, "F", "P", None, None, None, 1);
    feature(&mut pair, "F", "P", None, Some("blocked"), None, 2);
    assert_same(&pair);
    let rows = stored_features(&pair.conn);
    assert_eq!(rows.len(), 1);
    assert_eq!(rows[0].current_stage, 0);
    assert_eq!(rows[0].status, "blocked");
    feature(&mut pair, "F", "Q", Some(5), None, Some("words"), 3);
    feature(&mut pair, "F", "Q", None, None, None, 4);
    feature(&mut pair, "G", "Q", Some(1), Some("s"), Some("d"), 5);
    assert_same(&pair);
    let rows = stored_features(&pair.conn);
    assert_eq!(rows[0].project, "P");
    assert_eq!(rows[0].current_stage, 5);
    assert_eq!(rows[0].description.as_deref(), Some("words"));
    assert_eq!(rows[0].updated_at, 4);
}

#[test]
fn store_marks_stages_as_the_journal_does() {
    let mut pair = pair();
    feature(&mut pair, "F", "P", None, None, None, 1);
    feature(&mut pair, "G", "P", None, None, None, 1);
    for stage in 1..=STAGE_COUNT as i64 {
        mark(&mut pair, "F", stage, 10 + stage);
        assert_same(&pair);
    }
    mark(&mut pair, "F", 3, 99);
    mark(&mut pair, "G", 0, 99);
    mark(&mut pair, "G", 9, 99);
    mark(&mut pair, "ghost", 2, 99);
    assert_same(&pair);
    let rows = stored_features(&pair.conn);
    assert_eq!(rows[0].stage_completed[2], Some(99));
    assert_eq!(rows[0].stage_completed[3], Some(14));
    assert_eq!(rows[0].current_stage, 3);
    assert_eq!(rows[1].stage_completed, [None; STAGE_COUNT]);
}

#[test]
fn store_finds_the_active_session_the_journal_finds() {
    let mut pair = pair();
    for project in [None, Some("X"), Some("Y")] {
        assert_eq!(stored_active(&pair.conn, project), None);
    }
    start(&mut pair, "a", "X", None, None, 30);
    start(&mut pair, "b", "Y", None, None, 50);
    start(&mut pair, "c", "X", None, None, 40);
    start(&mut pair, "d", "X", None, None, 40);
    for step in 0..4 {
        for project in [None, Some("X"), Some("Y"), Some("Z")] {
            assert_eq!(
                stored_active(&pair.conn, project),
                pair.journal.get_active_session(project).map(|s| s.session_id.clone())
            );
        }
        let token = ["b", "d", "c", "a"][step];
        end(&mut pair, token, None, "completed", 60);
    }
    assert_eq!(stored_active(&pair.conn, None), None);
    assert!(pair.journal.get_active_session(None).is_none());
}

#[test]
fn store_summarizes_as_the_journal_does() {
    let pair = busy_pair();
    for project in [None, Some("X"), Some("Y"), Some("Z")] {
        for (days, now) in [
            (0, 0),
            (0, 99),
            (0, 100),
            (0, 299),
            (0, 300),
            (0, 350),
            (1, MS_PER_DAY + 199),
            (1, MS_PER_DAY + 200),
            (30, 1_000),
            (-1, 0),
            (i64::MAX, 0),
            (i64::MIN, 0),
        ] {
            assert_eq!(
                stored_summary(&pair.conn, project, days, now),
                pair.journal.get_journey_summary_at(project, days, now).unwrap()
            );
        }
    }
    assert_eq!(
        stored_summary(&pair.conn, None, 30, 1_000),
        Summary {
            period_days: 30,
            project: String::from("all"),
            sessions: SessionTotals { total: 3, completed: 1, total_steps: 5, total_agents: 3 },
            features: FeatureTotals { total: 3, completed: 2 },
        }
    );
}

#[test]
fn schema_can_be_applied_twice() {
    let mut pair = pair();
    start(&mut pair, "a", "X", None, None, 1);
    pair.conn.execute_batch(&schema()).unwrap();
    assert_same(&pair);
}

#[test]
fn values_never_reach_the_text_of_a_statement() {
    let mut pair = pair();
    let hostile = "x'; DROP TABLE features; --";
    start(&mut pair, hostile, "P\"Q", Some("f'"), Some("caf\u{e9} \u{1f600}"), 1);
    record(&mut pair, hostile, "agent_spawn", None, Some("t'); --"), 2);
    feature(&mut pair, hostile, "P", None, Some("st'atus"), Some("d\"esc"), 3);
    feature(&mut pair, hostile, "P", Some(2), None, None, 4);
    mark(&mut pair, hostile, 4, 5);
    change(&mut pair, hostile, "a'b", "created", None, 6);
    decide(&mut pair, hostile, Some("k'ind"), Some(hostile), 7);
    end(&mut pair, hostile, Some("s'um"), "completed", 8);
    assert_same(&pair);
    assert_eq!(stored_features(&pair.conn).len(), 1);
    assert_eq!(stored_features(&pair.conn)[0].feature_name, hostile);
    assert_eq!(stored_sessions(&pair.conn)[0].total_agents_spawned, 1);
    assert_eq!(stored_active(&pair.conn, None), None);
    assert_eq!(
        stored_summary(&pair.conn, Some("P\"Q"), 1, 10),
        pair.journal.get_journey_summary_at(Some("P\"Q"), 1, 10).unwrap()
    );
}

#[test]
fn empty_texts_are_texts() {
    let mut pair = pair();
    start(&mut pair, "", "", Some(""), None, 1);
    record(&mut pair, "", "", None, Some(""), 2);
    feature(&mut pair, "", "", None, Some(""), Some(""), 3);
    end(&mut pair, "", Some(""), "", 4);
    assert_same(&pair);
    assert_eq!(stored_sessions(&pair.conn)[0].summary.as_deref(), Some(""));
    assert_eq!(stored_sessions(&pair.conn)[0].total_steps, 1);
    assert_eq!(
        stored_summary(&pair.conn, Some(""), 1, 10),
        pair.journal.get_journey_summary_at(Some(""), 1, 10).unwrap()
    );
}
