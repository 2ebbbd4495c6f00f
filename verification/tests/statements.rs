use kratos_memory::error::JournalError;
use kratos_memory::schema::{schema, CONNECTION_SETUP};
use kratos_memory::sql::{
    column_name, decimal, optional_integer, optional_text, text, FeatureColumn, FeatureUpdate,
    SqlValue, Statement, UPDATE_CAPACITY,
};
use kratos_memory::stage::Stage;
use kratos_memory::statements::{
    active_session, count_steps, create_or_update_feature, create_or_update_feature_at,
    end_session, end_session_at, find_feature, greatest_step_number, journey_summary,
    journey_summary_at, mark_stage_complete, mark_stage_complete_at, record_decision,
    record_decision_at, record_file_change, record_file_change_at, record_step, record_step_at,
    start_session, start_session_at,
};
use kratos_memory::summary::MS_PER_DAY;

fn t(s: &str) -> SqlValue {
    SqlValue::Text(String::from(s))
}

fn n(i: i64) -> SqlValue {
    SqlValue::Integer(i)
}

fn moment(value: &SqlValue) -> i64 {
    match value {
        SqlValue::Integer(at) => *at,
        other => panic!("not an instant: {:?}", other),
    }
}

#[test]
fn decimal_writes_digits() {
    assert_eq!(decimal(0), "0");
    assert_eq!(decimal(7), "7");
    assert_eq!(decimal(9), "9");
    assert_eq!(decimal(10), "10");
    assert_eq!(decimal(14), "14");
    assert_eq!(decimal(100), "100");
    assert_eq!(decimal(1_234_567_890), "1234567890");
    assert_eq!(decimal(usize::MAX), format!("{}", usize::MAX));
}

#[test]
fn values_are_bound_or_null() {
    assert_eq!(text("a"), t("a"));
    assert_eq!(optional_text(Some("a")), t("a"));
    assert_eq!(optional_text(None), SqlValue::Null);
    assert_eq!(optional_integer(Some(-3)), n(-3));
    assert_eq!(optional_integer(None), SqlValue::Null);
}

#[test]
fn stage_is_one_of_the_fixed_stages() {
    for number in 1..=8 {
        let stage = Stage::new(number).unwrap();
        assert_eq!(stage.number(), number);
        assert_eq!(stage.slot() as i64, number - 1);
    }
    for number in [0, -1, 9, 10, i64::MAX, i64::MIN, 256 + 1] {
        assert_eq!(Stage::new(number), None);
    }
}

#[test]
fn columns_have_fixed_names() {
    assert_eq!(column_name(FeatureColumn::UpdatedAt), "updated_at");
    assert_eq!(column_name(FeatureColumn::CurrentStage), "current_stage");
    assert_eq!(column_name(FeatureColumn::Status), "status");
    assert_eq!(column_name(FeatureColumn::Description), "description");
    assert_eq!(column_name(FeatureColumn::StageCompleted(Stage::new(1).unwrap())), "stage_1_completed");
    assert_eq!(column_name(FeatureColumn::StageCompleted(Stage::new(8).unwrap())), "stage_8_completed");
}

#[test]
fn update_numbers_its_places() {
    let update = FeatureUpdate::new(FeatureColumn::Status, t("x"));
    assert_eq!(
        update.finish("F"),
        Statement {
            sql: String::from("UPDATE features SET status = ?1 WHERE feature_name = ?2"),
            params: vec![t("x"), t("F")],
        }
    );
    let mut update = FeatureUpdate::new(FeatureColumn::Description, SqlValue::Null);
    assert!(update.set(FeatureColumn::CurrentStage, n(2)));
    assert!(update.set(FeatureColumn::UpdatedAt, n(3)));
    assert_eq!(
        update.finish("it's"),
        Statement {
            sql: String::from(
                "UPDATE features SET description = ?1, current_stage = ?2, updated_at = ?3 WHERE feature_name = ?4"
            ),
            params: vec![SqlValue::Null, n(2), n(3), t("it's")],
        }
    );
}

#[test]
fn update_with_many_columns_counts_past_nine() {
    let mut update = FeatureUpdate::new(FeatureColumn::UpdatedAt, n(0));
    for i in 1..11 {
        assert!(update.set(FeatureColumn::Status, n(i)));
    }
    let made = update.finish("F");
    assert!(made.sql.contains(", status = ?9, status = ?10, status = ?11 WHERE feature_name = ?12"));
    assert_eq!(made.params.len(), 12);
    assert_eq!(made.params[10], n(10));
    assert_eq!(made.params[11], t("F"));
}

#[test]
fn update_has_room_for_a_thousand_columns() {
    assert_eq!(UPDATE_CAPACITY, 1000);
    let mut update = FeatureUpdate::new(FeatureColumn::UpdatedAt, n(0));
    for i in 1..1000 {
        assert!(update.set(FeatureColumn::Status, n(i)));
    }
    assert!(!update.set(FeatureColumn::Status, n(1000)));
    assert!(!update.set(FeatureColumn::Description, n(1001)));
    let made = update.finish("F");
    assert_eq!(made.params.len(), 1001);
    assert_eq!(made.params[999], n(999));
    assert!(made.sql.ends_with(", status = ?1000 WHERE feature_name = ?1001"));
}

#[test]
fn start_session_statement_binds_its_values() {
    assert_eq!(
        start_session_at("tok", "P", Some("F"), None, 12),
        Statement {
            sql: String::from(
                "INSERT INTO sessions (session_id, project, feature_name, initial_request, started_at, status) VALUES (?1, ?2, ?3, ?4, ?5, ?6)"
            ),
            params: vec![t("tok"), t("P"), t("F"), SqlValue::Null, n(12), t("active")],
        }
    );
}

#[test]
fn start_session_statement_carries_a_fresh_token() {
    let first = start_session("P", None, Some("please"));
    let second = start_session("P", None, Some("please"));
    assert_ne!(first.session_id, second.session_id);
    assert_eq!(first.session_id.len(), 36);
    assert_eq!(first.statement.sql, start_session_at("x", "P", None, None, 0).sql);
    assert_eq!(first.statement.params[0], t(&first.session_id));
    assert_eq!(first.statement.params[1], t("P"));
    assert_eq!(first.statement.params[2], SqlValue::Null);
    assert_eq!(first.statement.params[3], t("please"));
    assert!(moment(&first.statement.params[4]) > 1_577_836_800_000);
    assert_eq!(first.statement.params[5], t("active"));
}

#[test]
fn count_steps_statement_counts_spawns() {
    assert_eq!(
        count_steps("tok"),
        Statement {
            sql: String::from(
                "SELECT COUNT(*), COUNT(CASE WHEN step_type = ?2 THEN 1 END) FROM steps WHERE session_id = ?1"
            ),
            params: vec![t("tok"), t("agent_spawn")],
        }
    );
}

#[test]
fn end_session_statement_binds_its_values() {
    assert_eq!(
        end_session_at("tok", None, "completed", 5, 2, 99),
        Statement {
            sql: String::from(
                "UPDATE sessions SET ended_at = ?1, status = ?2, summary = ?3, total_steps = ?4, total_agents_spawned = ?5 WHERE session_id = ?6"
            ),
            params: vec![n(99), t("completed"), SqlValue::Null, n(5), n(2), t("tok")],
        }
    );
    let now = end_session("tok", Some("fine"), "aborted", 1, 0);
    assert_eq!(now.sql, end_session_at("tok", None, "x", 0, 0, 0).sql);
    assert!(moment(&now.params[0]) > 1_577_836_800_000);
    assert_eq!(&now.params[1..], &[t("aborted"), t("fine"), n(1), n(0), t("tok")]);
}

#[test]
fn active_session_statement_filters_by_project() {
    let all = active_session(None);
    assert_eq!(
        all.sql,
        "SELECT id, session_id, project, feature_name, initial_request, started_at, ended_at, status, summary, total_steps, total_agents_spawned FROM sessions WHERE status = ?1 ORDER BY started_at DESC, id DESC LIMIT 1"
    );
    assert_eq!(all.params, vec![t("active")]);
    let one = active_session(Some("P"));
    assert_eq!(
        one.sql,
        "SELECT id, session_id, project, feature_name, initial_request, started_at, ended_at, status, summary, total_steps, total_agents_spawned FROM sessions WHERE status = ?1 AND project = ?2 ORDER BY started_at DESC, id DESC LIMIT 1"
    );
    assert_eq!(one.params, vec![t("active"), t("P")]);
}

#[test]
fn record_step_statement_takes_the_next_number() {
    assert_eq!(
        greatest_step_number("tok"),
        Statement {
            sql: String::from("SELECT COALESCE(MAX(step_number), 0) FROM steps WHERE session_id = ?1"),
            params: vec![t("tok")],
        }
    );
    let made = record_step_at(
        "tok",
        4,
        "work",
        "act",
        Some("ares"),
        None,
        Some(6),
        None,
        Some("ok"),
        None,
        Some("[]"),
        None,
        Some("{}"),
        77,
    )
    .unwrap();
    assert_eq!(
        made,
        Statement {
            sql: String::from(
                "INSERT INTO steps (session_id, step_number, step_type, timestamp, agent_name, agent_model, pipeline_stage, action, target, result, files_created, files_modified, files_deleted, context) VALUES (?1, ?2, ?3, ?4, ?5, ?6, ?7, ?8, ?9, ?10, ?11, ?12, ?13, ?14)"
            ),
            params: vec![
                t("tok"),
                n(5),
                t("work"),
                n(77),
                t("ares"),
                SqlValue::Null,
                n(6),
                t("act"),
                SqlValue::Null,
                t("ok"),
                SqlValue::Null,
                t("[]"),
                SqlValue::Null,
                t("{}"),
            ],
        }
    );
    let first = record_step_at("tok", 0, "work", "act", None, None, None, None, None, None, None, None, None, 1).unwrap();
    assert_eq!(first.params[1], n(1));
}

#[test]
fn record_step_statement_fails_after_the_last_number() {
    assert_eq!(
        record_step_at("tok", i64::MAX, "work", "act", None, None, None, None, None, None, None, None, None, 1),
        Err(JournalError::StoreFull)
    );
    assert_eq!(
        record_step("tok", i64::MAX, "work", "act", None, None, None, None, None, None, None, None, None),
        Err(JournalError::StoreFull)
    );
    let last = record_step_at("tok", i64::MAX - 1, "work", "act", None, None, None, None, None, None, None, None, None, 1)
        .unwrap();
    assert_eq!(last.params[1], n(i64::MAX));
    let now = record_step("tok", 2, "work", "act", None, None, None, None, None, None, None, None, None).unwrap();
    assert_eq!(now.params[1], n(3));
    assert!(moment(&now.params[3]) > 1_577_836_800_000);
}

#[test]
fn feature_statement_updates_only_what_was_supplied() {
    assert_eq!(
        find_feature("F"),
        Statement { sql: String::from("SELECT id FROM features WHERE feature_name = ?1"), params: vec![t("F")] }
    );
    assert_eq!(
        create_or_update_feature_at(true, "F", "P", None, None, None, 9),
        Statement {
            sql: String::from("UPDATE features SET updated_at = ?1 WHERE feature_name = ?2"),
            params: vec![n(9), t("F")],
        }
    );
    assert_eq!(
        create_or_update_feature_at(true, "F", "P", Some(3), None, None, 9),
        Statement {
            sql: String::from("UPDATE features SET updated_at = ?1, current_stage = ?2 WHERE feature_name = ?3"),
            params: vec![n(9), n(3), t("F")],
        }
    );
    assert_eq!(
        create_or_update_feature_at(true, "F", "P", None, Some("blocked"), None, 9),
        Statement {
            sql: String::from("UPDATE features SET updated_at = ?1, status = ?2 WHERE feature_name = ?3"),
            params: vec![n(9), t("blocked"), t("F")],
        }
    );
    assert_eq!(
        create_or_update_feature_at(true, "F", "P", None, None, Some("d"), 9),
        Statement {
            sql: String::from("UPDATE features SET updated_at = ?1, description = ?2 WHERE feature_name = ?3"),
            params: vec![n(9), t("d"), t("F")],
        }
    );
    assert_eq!(
        create_or_update_feature_at(true, "F", "P", Some(3), None, Some("d"), 9),
        Statement {
            sql: String::from(
                "UPDATE features SET updated_at = ?1, current_stage = ?2, description = ?3 WHERE feature_name = ?4"
            ),
            params: vec![n(9), n(3), t("d"), t("F")],
        }
    );
    assert_eq!(
        create_or_update_feature_at(true, "F", "P", Some(3), Some("s"), Some("d"), 9),
        Statement {
            sql: String::from(
                "UPDATE features SET updated_at = ?1, current_stage = ?2, status = ?3, description = ?4 WHERE feature_name = ?5"
            ),
            params: vec![n(9), n(3), t("s"), t("d"), t("F")],
        }
    );
}

#[test]
fn feature_statement_creates_with_defaults() {
    assert_eq!(
        create_or_update_feature_at(false, "F", "P", None, None, None, 9),
        Statement {
            sql: String::from(
                "INSERT INTO features (feature_name, project, created_at, updated_at, current_stage, status, description) VALUES (?1, ?2, ?3, ?4, ?5, ?6, ?7)"
            ),
            params: vec![t("F"), t("P"), n(9), n(9), n(0), t("in_progress"), SqlValue::Null],
        }
    );
    assert_eq!(
        create_or_update_feature_at(false, "F", "P", Some(2), Some("s"), Some("d"), 9).params,
        vec![t("F"), t("P"), n(9), n(9), n(2), t("s"), t("d")]
    );
    let now = create_or_update_feature(false, "F", "P", None, None, None);
    assert!(moment(&now.params[2]) > 1_577_836_800_000);
    assert_eq!(now.params[2], now.params[3]);
    let again = create_or_update_feature(true, "F", "P", None, Some("s"), None);
    assert_eq!(again.sql, "UPDATE features SET updated_at = ?1, status = ?2 WHERE feature_name = ?3");
    assert!(moment(&again.params[0]) > 1_577_836_800_000);
}

#[test]
fn stage_statement_names_the_column_of_the_stage() {
    assert_eq!(
        mark_stage_complete_at("F", 3, 44),
        Ok(Statement {
            sql: String::from(
                "UPDATE features SET stage_3_completed = ?1, current_stage = ?2, updated_at = ?3 WHERE feature_name = ?4"
            ),
            params: vec![n(44), n(3), n(44), t("F")],
        })
    );
    for stage in 1..=8 {
        let made = mark_stage_complete_at("F", stage, 1).unwrap();
        assert!(made.sql.starts_with(&format!("UPDATE features SET stage_{}_completed = ?1,", stage)));
        assert_eq!(made.params[1], n(stage));
    }
    let now = mark_stage_complete("F", 8).unwrap();
    assert!(moment(&now.params[0]) > 1_577_836_800_000);
    assert_eq!(now.params[0], now.params[2]);
}

#[test]
fn stage_statement_refuses_a_stage_outside_the_fixed_set() {
    for stage in [0, -1, 9, 33, i64::MAX, i64::MIN] {
        assert_eq!(mark_stage_complete_at("F", stage, 1), Err(JournalError::InvalidStage));
        assert_eq!(mark_stage_complete("F", stage), Err(JournalError::InvalidStage));
    }
}

#[test]
fn log_statements_bind_their_values() {
    assert_eq!(
        record_file_change_at("tok", "a.rs", "modified", Some(4), None, 8),
        Statement {
            sql: String::from(
                "INSERT INTO file_changes (session_id, step_id, timestamp, file_path, change_type, description) VALUES (?1, ?2, ?3, ?4, ?5, ?6)"
            ),
            params: vec![t("tok"), n(4), n(8), t("a.rs"), t("modified"), SqlValue::Null],
        }
    );
    assert_eq!(
        record_decision_at("tok", "q", "c", None, Some("F"), None, 8),
        Statement {
            sql: String::from(
                "INSERT INTO decisions (session_id, feature_name, timestamp, decision_type, question, choice, rationale) VALUES (?1, ?2, ?3, ?4, ?5, ?6, ?7)"
            ),
            params: vec![t("tok"), t("F"), n(8), t("implementation"), t("q"), t("c"), SqlValue::Null],
        }
    );
    assert_eq!(record_decision_at("tok", "q", "c", Some("design"), None, Some("r"), 8).params[3], t("design"));
    let change = record_file_change("tok", "a.rs", "created", None, Some("d"));
    assert!(moment(&change.params[2]) > 1_577_836_800_000);
    assert_eq!(change.params[5], t("d"));
    let decision = record_decision("tok", "q", "c", None, None, Some("r"));
    assert!(moment(&decision.params[2]) > 1_577_836_800_000);
    assert_eq!(decision.params[6], t("r"));
}

#[test]
fn summary_queries_bind_the_cutoff() {
    let all = journey_summary_at(None, 30, 3_000_000_000);
    assert_eq!(
        all.sessions,
        Statement {
            sql: String::from(
                "SELECT COUNT(*), COUNT(CASE WHEN status = ?2 THEN 1 END), COALESCE(SUM(total_steps), 0), COALESCE(SUM(total_agents_spawned), 0) FROM sessions WHERE started_at > ?1"
            ),
            params: vec![n(3_000_000_000 - 30 * 86_400_000), t("completed")],
        }
    );
    assert_eq!(
        all.features,
        Statement {
            sql: String::from(
                "SELECT COUNT(*), COUNT(CASE WHEN status = ?2 THEN 1 END) FROM features WHERE created_at > ?1"
            ),
            params: vec![n(408_000_000), t("completed")],
        }
    );
    let one = journey_summary_at(Some("P"), 0, 17);
    assert!(one.sessions.sql.ends_with("FROM sessions WHERE started_at > ?1 AND project = ?3"));
    assert!(one.features.sql.ends_with("FROM features WHERE created_at > ?1 AND project = ?3"));
    assert_eq!(one.sessions.params, vec![n(17), t("completed"), t("P")]);
    assert_eq!(one.features.params, vec![n(17), t("completed"), t("P")]);
}

#[test]
fn summary_queries_bind_a_cutoff_that_fits() {
    assert_eq!(journey_summary_at(None, 1, i64::MIN).sessions.params[0], n(i64::MIN));
    assert_eq!(journey_summary_at(None, -1, i64::MAX).sessions.params[0], n(i64::MAX));
    assert_eq!(journey_summary_at(None, i64::MAX, 0).features.params[0], n(i64::MIN));
    assert_eq!(journey_summary_at(None, i64::MIN, 0).features.params[0], n(i64::MAX));
    assert_eq!(journey_summary_at(None, -1, 5).sessions.params[0], n(5 + MS_PER_DAY));
    let now = journey_summary(Some("P"), 1);
    let cut = moment(&now.sessions.params[0]);
    assert!(cut > 1_577_836_800_000 - MS_PER_DAY);
    assert_eq!(now.features.params[0], n(cut));
}

#[test]
fn schema_has_a_column_for_each_stage() {
    let text = schema();
    for table in ["sessions", "steps", "features", "file_changes", "decisions"] {
        assert!(text.contains(&format!("CREATE TABLE IF NOT EXISTS {} (", table)));
    }
    assert!(text.contains(
        "description TEXT, stage_1_completed INTEGER, stage_2_completed INTEGER, stage_3_completed INTEGER, stage_4_completed INTEGER, stage_5_completed INTEGER, stage_6_completed INTEGER, stage_7_completed INTEGER, stage_8_completed INTEGER); "
    ));
    assert!(!text.contains("stage_0_completed"));
    assert!(!text.contains("stage_9_completed"));
    assert!(CONNECTION_SETUP.contains("journal_mode = WAL"));
    assert!(CONNECTION_SETUP.contains("synchronous = NORMAL"));
    assert!(CONNECTION_SETUP.contains("foreign_keys = ON"));
}
