//! The five kinds of row the journal keeps, each with its mathematical view.
//!
//! A record holds machine values (`String`, `i64`); its view holds the same
//! data as sequences of characters and unbounded integers. Every contract of
//! the journal is stated over the views.

use vstd::prelude::*;

verus! {

/// The status a session has from its start until it is closed.
pub const STATUS_ACTIVE: &'static str = "active";

/// The status that counts as completed in a summary.
pub const STATUS_COMPLETED: &'static str = "completed";

/// The status a feature has when it is first referenced without one.
pub const STATUS_IN_PROGRESS: &'static str = "in_progress";

/// The step type that counts as the spawn of a sub-agent.
pub const STEP_AGENT_SPAWN: &'static str = "agent_spawn";

/// The decision type of a decision recorded without one.
pub const DECISION_IMPLEMENTATION: &'static str = "implementation";

/// The number of stage slots of a feature. The stages are numbered from 1.
pub const STAGE_COUNT: usize = 8;

/// The text of an optional string, if there is one.
pub open spec fn text_of(o: Option<String>) -> Option<Seq<char>> {
    match o {
        Some(s) => Some(s@),
        None => None,
    }
}

/// The text of an optional string slice, if there is one.
pub open spec fn str_of(o: Option<&str>) -> Option<Seq<char>> {
    match o {
        Some(s) => Some(s@),
        None => None,
    }
}

/// An optional machine integer as an optional integer.
pub open spec fn int_of(o: Option<i64>) -> Option<int> {
    match o {
        Some(n) => Some(n as int),
        None => None,
    }
}

/// One end-to-end run of the orchestrated workflow.
#[derive(Debug, PartialEq, Eq)]
pub struct Session {
    pub id: i64,
    pub session_id: String,
    pub project: String,
    pub feature_name: Option<String>,
    pub initial_request: Option<String>,
    pub started_at: i64,
    pub ended_at: Option<i64>,
    pub status: String,
    pub summary: Option<String>,
    pub total_steps: i64,
    pub total_agents_spawned: i64,
}

/// What a [`Session`] says.
pub struct SessionView {
    pub id: int,
    pub session_id: Seq<char>,
    pub project: Seq<char>,
    pub feature_name: Option<Seq<char>>,
    pub initial_request: Option<Seq<char>>,
    pub started_at: int,
    pub ended_at: Option<int>,
    pub status: Seq<char>,
    pub summary: Option<Seq<char>>,
    pub total_steps: int,
    pub total_agents_spawned: int,
}

impl View for Session {
    type V = SessionView;

    open spec fn view(&self) -> SessionView {
        SessionView {
            id: self.id as int,
            session_id: self.session_id@,
            project: self.project@,
            feature_name: text_of(self.feature_name),
            initial_request: text_of(self.initial_request),
            started_at: self.started_at as int,
            ended_at: int_of(self.ended_at),
            status: self.status@,
            summary: text_of(self.summary),
            total_steps: self.total_steps as int,
            total_agents_spawned: self.total_agents_spawned as int,
        }
    }
}

/// One recorded action within a session.
#[derive(Debug, PartialEq, Eq)]
pub struct Step {
    pub id: i64,
    pub session_id: String,
    pub step_number: i64,
    pub step_type: String,
    pub timestamp: i64,
    pub agent_name: Option<String>,
    pub agent_model: Option<String>,
    pub pipeline_stage: Option<i64>,
    pub action: String,
    pub target: Option<String>,
    pub result: Option<String>,
    pub files_created: Option<String>,
    pub files_modified: Option<String>,
    pub files_deleted: Option<String>,
    pub context: Option<String>,
}

/// What a [`Step`] says.
pub struct StepView {
    pub id: int,
    pub session_id: Seq<char>,
    pub step_number: int,
    pub step_type: Seq<char>,
    pub timestamp: int,
    pub agent_name: Option<Seq<char>>,
    pub agent_model: Option<Seq<char>>,
    pub pipeline_stage: Option<int>,
    pub action: Seq<char>,
    pub target: Option<Seq<char>>,
    pub result: Option<Seq<char>>,
    pub files_created: Option<Seq<char>>,
    pub files_modified: Option<Seq<char>>,
    pub files_deleted: Option<Seq<char>>,
    pub context: Option<Seq<char>>,
}

impl View for Step {
    type V = StepView;

    open spec fn view(&self) -> StepView {
        StepView {
            id: self.id as int,
            session_id: self.session_id@,
            step_number: self.step_number as int,
            step_type: self.step_type@,
            timestamp: self.timestamp as int,
            agent_name: text_of(self.agent_name),
            agent_model: text_of(self.agent_model),
            pipeline_stage: int_of(self.pipeline_stage),
            action: self.action@,
            target: text_of(self.target),
            result: text_of(self.result),
            files_created: text_of(self.files_created),
            files_modified: text_of(self.files_modified),
            files_deleted: text_of(self.files_deleted),
            context: text_of(self.context),
        }
    }
}

/// A named unit of work that advances through the numbered stages.
#[derive(Debug, PartialEq, Eq)]
pub struct Feature {
    pub id: i64,
    pub feature_name: String,
    pub project: String,
    pub created_at: i64,
    pub updated_at: i64,
    pub current_stage: i64,
    pub status: String,
    pub description: Option<String>,
    /// The completion time of stage `k` is in slot `k - 1`.
    pub stage_completed: [Option<i64>; STAGE_COUNT],
}

/// What a [`Feature`] says. `stage_completed` maps the number of each
/// completed stage to the time of its completion.
pub struct FeatureView {
    pub id: int,
    pub feature_name: Seq<char>,
    pub project: Seq<char>,
    pub created_at: int,
    pub updated_at: int,
    pub current_stage: int,
    pub status: Seq<char>,
    pub description: Option<Seq<char>>,
    pub stage_completed: Map<int, int>,
}

/// The completed stages held in the slots of a feature.
pub open spec fn stages_of(slots: Seq<Option<i64>>) -> Map<int, int> {
    Map::new(
        |k: int| 1 <= k <= slots.len() && slots[k - 1] is Some,
        |k: int| slots[k - 1].unwrap() as int,
    )
}

impl View for Feature {
    type V = FeatureView;

    open spec fn view(&self) -> FeatureView {
        FeatureView {
            id: self.id as int,
            feature_name: self.feature_name@,
            project: self.project@,
            created_at: self.created_at as int,
            updated_at: self.updated_at as int,
            current_stage: self.current_stage as int,
            status: self.status@,
            description: text_of(self.description),
            stage_completed: stages_of(self.stage_completed@),
        }
    }
}

/// One change to a file, made during a session.
#[derive(Debug, PartialEq, Eq)]
pub struct FileChange {
    pub id: i64,
    pub session_id: String,
    pub step_id: Option<i64>,
    pub timestamp: i64,
    pub file_path: String,
    pub change_type: String,
    pub description: Option<String>,
}

/// What a [`FileChange`] says.
pub struct FileChangeView {
    pub id: int,
    pub session_id: Seq<char>,
    pub step_id: Option<int>,
    pub timestamp: int,
    pub file_path: Seq<char>,
    pub change_type: Seq<char>,
    pub description: Option<Seq<char>>,
}

impl View for FileChange {
    type V = FileChangeView;

    open spec fn view(&self) -> FileChangeView {
        FileChangeView {
            id: self.id as int,
            session_id: self.session_id@,
            step_id: int_of(self.step_id),
            timestamp: self.timestamp as int,
            file_path: self.file_path@,
            change_type: self.change_type@,
            description: text_of(self.description),
        }
    }
}

/// One choice made during a session.
#[derive(Debug, PartialEq, Eq)]
pub struct Decision {
    pub id: i64,
    pub session_id: String,
    pub feature_name: Option<String>,
    pub timestamp: i64,
    pub decision_type: String,
    pub question: String,
    pub choice: String,
    pub rationale: Option<String>,
}

/// What a [`Decision`] says.
pub struct DecisionView {
    pub id: int,
    pub session_id: Seq<char>,
    pub feature_name: Option<Seq<char>>,
    pub timestamp: int,
    pub decision_type: Seq<char>,
    pub question: Seq<char>,
    pub choice: Seq<char>,
    pub rationale: Option<Seq<char>>,
}

impl View for Decision {
    type V = DecisionView;

    open spec fn view(&self) -> DecisionView {
        DecisionView {
            id: self.id as int,
            session_id: self.session_id@,
            feature_name: text_of(self.feature_name),
            timestamp: self.timestamp as int,
            decision_type: self.decision_type@,
            question: self.question@,
            choice: self.choice@,
            rationale: text_of(self.rationale),
        }
    }
}

/// An owned copy of an optional string slice.
pub fn owned_text(o: Option<&str>) -> (r: Option<String>)
    ensures
        text_of(r) == str_of(o),
{
    match o {
        Some(s) => Some(s.to_owned()),
        None => None,
    }
}

} // verus!
