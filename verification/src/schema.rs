//! The layout of the store: five tables, and in the table of features one
//! column for the completion time of each of the fixed stages.

use vstd::prelude::*;
use vstd::string::StringExecFns;
use crate::records::STAGE_COUNT;
use crate::sql::{column_name, stage_column_text, FeatureColumn};
use crate::stage::Stage;

verus! {

/// What a connection to the store is set up with: a write-ahead log, so
/// that readers go on while one writer commits; commits that wait for the
/// log only; and references between tables enforced.
pub const CONNECTION_SETUP: &'static str =
    "PRAGMA journal_mode = WAL; PRAGMA synchronous = NORMAL; PRAGMA foreign_keys = ON;";

/// The table of sessions.
pub const CREATE_SESSIONS: &'static str =
    "CREATE TABLE IF NOT EXISTS sessions (id INTEGER PRIMARY KEY, session_id TEXT NOT NULL UNIQUE, project TEXT NOT NULL, feature_name TEXT, initial_request TEXT, started_at INTEGER NOT NULL, ended_at INTEGER, status TEXT NOT NULL, summary TEXT, total_steps INTEGER NOT NULL DEFAULT 0, total_agents_spawned INTEGER NOT NULL DEFAULT 0); ";

/// The table of steps.
pub const CREATE_STEPS: &'static str =
    "CREATE TABLE IF NOT EXISTS steps (id INTEGER PRIMARY KEY, session_id TEXT NOT NULL REFERENCES sessions (session_id), step_number INTEGER NOT NULL, step_type TEXT NOT NULL, timestamp INTEGER NOT NULL, agent_name TEXT, agent_model TEXT, pipeline_stage INTEGER, action TEXT NOT NULL, target TEXT, result TEXT, files_created TEXT, files_modified TEXT, files_deleted TEXT, context TEXT, UNIQUE (session_id, step_number)); ";

/// The table of features, up to the columns of the stages.
pub const CREATE_FEATURES: &'static str =
    "CREATE TABLE IF NOT EXISTS features (id INTEGER PRIMARY KEY, feature_name TEXT NOT NULL UNIQUE, project TEXT NOT NULL, created_at INTEGER NOT NULL, updated_at INTEGER NOT NULL, current_stage INTEGER NOT NULL, status TEXT NOT NULL, description TEXT";

/// The table of file changes.
pub const CREATE_FILE_CHANGES: &'static str =
    "CREATE TABLE IF NOT EXISTS file_changes (id INTEGER PRIMARY KEY, session_id TEXT NOT NULL REFERENCES sessions (session_id), step_id INTEGER, timestamp INTEGER NOT NULL, file_path TEXT NOT NULL, change_type TEXT NOT NULL, description TEXT); ";

/// The table of decisions.
pub const CREATE_DECISIONS: &'static str =
    "CREATE TABLE IF NOT EXISTS decisions (id INTEGER PRIMARY KEY, session_id TEXT NOT NULL REFERENCES sessions (session_id), feature_name TEXT, timestamp INTEGER NOT NULL, decision_type TEXT NOT NULL, question TEXT NOT NULL, choice TEXT NOT NULL, rationale TEXT);";

/// The columns for the completion times of the first `count` stages, each
/// under the name that an update of that stage writes to.
pub open spec fn stage_columns_text(count: nat) -> Seq<char>
    decreases count,
{
    if count == 0 {
        Seq::empty()
    } else {
        stage_columns_text((count - 1) as nat) + ", "@ + stage_column_text(count as int)
            + " INTEGER"@
    }
}

/// The statements that create the five tables where they do not exist yet.
pub open spec fn schema_text() -> Seq<char> {
    CREATE_SESSIONS@ + CREATE_STEPS@ + CREATE_FEATURES@ + stage_columns_text(STAGE_COUNT as nat)
        + "); "@ + CREATE_FILE_CHANGES@ + CREATE_DECISIONS@
}

/// Writes the statements that create the five tables where they do not
/// exist yet. Applying them a second time changes nothing.
pub fn schema() -> (text: String)
    ensures
        text@ == schema_text(),
{
    let mut text = CREATE_SESSIONS.to_owned();
    text.append(CREATE_STEPS);
    text.append(CREATE_FEATURES);
    let ghost head = text@;
    let mut number: usize = 0;
    while number < STAGE_COUNT
        invariant
            number <= STAGE_COUNT,
            head == CREATE_SESSIONS@ + CREATE_STEPS@ + CREATE_FEATURES@,
            text@ == head + stage_columns_text(number as nat),
        decreases STAGE_COUNT - number,
    {
        number += 1;
        if let Some(stage) = Stage::new(number as i64) {
            let name = column_name(FeatureColumn::StageCompleted(stage));
            text.append(", ");
            text.append(name.as_str());
            text.append(" INTEGER");
            proof {
                assert(text@ =~= head + stage_columns_text(number as nat));
            }
        }
    }
    text.append("); ");
    text.append(CREATE_FILE_CHANGES);
    text.append(CREATE_DECISIONS);
    text
}

} // verus!
