//! The statements and the journal follow the same rules: what a statement
//! binds is what the journal writes into the row, given that the lookups
//! before it found what the journal holds.

use vstd::prelude::*;
use crate::features::{staged, touched};
use crate::model::JournalView;
use crate::records::{DecisionView, FeatureView, FileChangeView, SessionView, StepView};
use crate::sessions::closed;
use crate::sql::{integer_or_null, text_or_null, ColumnView, SqlValueView};
use crate::statements::{
    create_feature_statement, end_session_statement, mark_stage_complete_statement,
    record_decision_statement, record_file_change_statement, record_step_statement,
    start_session_statement, supplied_columns, supplied_values,
};
use crate::steps::max_step_number;

verus! {

/// What a new session row holds in the columns that its statement names.
pub open spec fn session_values(row: SessionView) -> Seq<SqlValueView> {
    seq![
        SqlValueView::Text(row.session_id),
        SqlValueView::Text(row.project),
        text_or_null(row.feature_name),
        text_or_null(row.initial_request),
        SqlValueView::Integer(row.started_at),
        SqlValueView::Text(row.status),
    ]
}

/// What a closed session row holds in the columns that closing writes,
/// followed by its token.
pub open spec fn closing_values(row: SessionView) -> Seq<SqlValueView> {
    seq![
        integer_or_null(row.ended_at),
        SqlValueView::Text(row.status),
        text_or_null(row.summary),
        SqlValueView::Integer(row.total_steps),
        SqlValueView::Integer(row.total_agents_spawned),
        SqlValueView::Text(row.session_id),
    ]
}

/// What a new step row holds in the columns that its statement names.
pub open spec fn step_values(row: StepView) -> Seq<SqlValueView> {
    seq![
        SqlValueView::Text(row.session_id),
        SqlValueView::Integer(row.step_number),
        SqlValueView::Text(row.step_type),
        SqlValueView::Integer(row.timestamp),
        text_or_null(row.agent_name),
        text_or_null(row.agent_model),
        integer_or_null(row.pipeline_stage),
        SqlValueView::Text(row.action),
        text_or_null(row.target),
        text_or_null(row.result),
        text_or_null(row.files_created),
        text_or_null(row.files_modified),
        text_or_null(row.files_deleted),
        text_or_null(row.context),
    ]
}

/// What a new feature row holds in the columns that its statement names.
pub open spec fn feature_values(row: FeatureView) -> Seq<SqlValueView> {
    seq![
        SqlValueView::Text(row.feature_name),
        SqlValueView::Text(row.project),
        SqlValueView::Integer(row.created_at),
        SqlValueView::Integer(row.updated_at),
        SqlValueView::Integer(row.current_stage),
        SqlValueView::Text(row.status),
        text_or_null(row.description),
    ]
}

/// What a new file change row holds in the columns that its statement
/// names.
pub open spec fn file_change_values(row: FileChangeView) -> Seq<SqlValueView> {
    seq![
        SqlValueView::Text(row.session_id),
        integer_or_null(row.step_id),
        SqlValueView::Integer(row.timestamp),
        SqlValueView::Text(row.file_path),
        SqlValueView::Text(row.change_type),
        text_or_null(row.description),
    ]
}

/// What a new decision row holds in the columns that its statement names.
pub open spec fn decision_values(row: DecisionView) -> Seq<SqlValueView> {
    seq![
        SqlValueView::Text(row.session_id),
        text_or_null(row.feature_name),
        SqlValueView::Integer(row.timestamp),
        SqlValueView::Text(row.decision_type),
        SqlValueView::Text(row.question),
        SqlValueView::Text(row.choice),
        text_or_null(row.rationale),
    ]
}

/// What a feature row holds in one of the columns that an update may write.
pub open spec fn column_value(row: FeatureView, column: ColumnView) -> SqlValueView {
    match column {
        ColumnView::UpdatedAt => SqlValueView::Integer(row.updated_at),
        ColumnView::CurrentStage => SqlValueView::Integer(row.current_stage),
        ColumnView::Status => SqlValueView::Text(row.status),
        ColumnView::Description => text_or_null(row.description),
        ColumnView::StageCompleted(stage) => if row.stage_completed.dom().contains(stage) {
            SqlValueView::Integer(row.stage_completed[stage])
        } else {
            SqlValueView::Null
        },
    }
}

/// An update writes the difference between two rows: each column it names
/// gets the value that the row after holds there, and in every column that
/// it does not name the row after holds what the row before held.
pub open spec fn writes_difference(
    columns: Seq<ColumnView>,
    values: Seq<SqlValueView>,
    before: FeatureView,
    after: FeatureView,
) -> bool {
    &&& columns.len() == values.len()
    &&& forall|i: int|
        0 <= i < columns.len() ==> #[trigger] values[i] == column_value(after, columns[i])
    &&& forall|column: ColumnView|
        !columns.contains(column) ==> #[trigger] column_value(after, column) == column_value(
            before,
            column,
        )
}

/// The statement that starts a session binds what the journal writes into
/// the row of the session.
pub proof fn lemma_start_session_agrees(
    j: JournalView,
    token: Seq<char>,
    project: Seq<char>,
    feature_name: Option<Seq<char>>,
    initial_request: Option<Seq<char>>,
    now: int,
)
    ensures
        start_session_statement(token, project, feature_name, initial_request, now).params
            == session_values(j.new_session(token, project, feature_name, initial_request, now)),
{
    assert(start_session_statement(token, project, feature_name, initial_request, now).params
        =~= session_values(j.new_session(token, project, feature_name, initial_request, now)));
}

/// The statement that closes a session binds what the journal writes into
/// the row of the session, where the counts it is given are those of the
/// steps that the journal holds for the session.
pub proof fn lemma_end_session_agrees(
    j: JournalView,
    row: SessionView,
    summary: Option<Seq<char>>,
    status: Seq<char>,
    now: int,
)
    ensures
        end_session_statement(
            row.session_id,
            summary,
            status,
            j.step_count(row.session_id),
            j.spawn_count(row.session_id),
            now,
        ).params == closing_values(
            closed(
                row,
                summary,
                status,
                j.step_count(row.session_id),
                j.spawn_count(row.session_id),
                now,
            ),
        ),
{
    assert(end_session_statement(
        row.session_id,
        summary,
        status,
        j.step_count(row.session_id),
        j.spawn_count(row.session_id),
        now,
    ).params =~= closing_values(
        closed(
            row,
            summary,
            status,
            j.step_count(row.session_id),
            j.spawn_count(row.session_id),
            now,
        ),
    ));
}

/// The statement that records a step binds what the journal writes into the
/// row of the step, where the greatest number it is given is the greatest
/// among the steps that the journal holds for the session.
pub proof fn lemma_record_step_agrees(
    j: JournalView,
    token: Seq<char>,
    step_type: Seq<char>,
    action: Seq<char>,
    agent_name: Option<Seq<char>>,
    agent_model: Option<Seq<char>>,
    pipeline_stage: Option<int>,
    target: Option<Seq<char>>,
    result: Option<Seq<char>>,
    files_created: Option<Seq<char>>,
    files_modified: Option<Seq<char>>,
    files_deleted: Option<Seq<char>>,
    context: Option<Seq<char>>,
    now: int,
)
    ensures
        record_step_statement(
            token,
            max_step_number(j.steps_of(token)),
            step_type,
            action,
            agent_name,
            agent_model,
            pipeline_stage,
            target,
            result,
            files_created,
            files_modified,
            files_deleted,
            context,
            now,
        ).params == step_values(
            j.new_step(
                token,
                step_type,
                action,
                agent_name,
                agent_model,
                pipeline_stage,
                target,
                result,
                files_created,
                files_modified,
                files_deleted,
                context,
                now,
            ),
        ),
{
    assert(record_step_statement(
        token,
        max_step_number(j.steps_of(token)),
        step_type,
        action,
        agent_name,
        agent_model,
        pipeline_stage,
        target,
        result,
        files_created,
        files_modified,
        files_deleted,
        context,
        now,
    ).params =~= step_values(
        j.new_step(
            token,
            step_type,
            action,
            agent_name,
            agent_model,
            pipeline_stage,
            target,
            result,
            files_created,
            files_modified,
            files_deleted,
            context,
            now,
        ),
    ));
}

/// The statement that adds a feature binds what the journal writes into the
/// row of the feature: the same stage and the same status where they were
/// left out.
pub proof fn lemma_create_feature_agrees(
    j: JournalView,
    name: Seq<char>,
    project: Seq<char>,
    stage: Option<int>,
    status: Option<Seq<char>>,
    description: Option<Seq<char>>,
    now: int,
)
    ensures
        create_feature_statement(name, project, stage, status, description, now).params
            == feature_values(j.new_feature(name, project, stage, status, description, now)),
{
    assert(create_feature_statement(name, project, stage, status, description, now).params
        =~= feature_values(j.new_feature(name, project, stage, status, description, now)));
}

/// The partial update of a feature writes the difference between the row
/// that the journal held and the row that it holds afterwards: it writes
/// what was supplied, and names no column of what was left out.
pub proof fn lemma_update_feature_agrees(
    row: FeatureView,
    stage: Option<int>,
    status: Option<Seq<char>>,
    description: Option<Seq<char>>,
    now: int,
)
    ensures
        writes_difference(
            supplied_columns(stage, status, description),
            supplied_values(stage, status, description, now),
            row,
            touched(row, stage, status, description, now),
        ),
{
    let columns = supplied_columns(stage, status, description);
    let after = touched(row, stage, status, description, now);
    assert(columns[0] == ColumnView::UpdatedAt);
    assert forall|column: ColumnView| !columns.contains(column) implies #[trigger] column_value(
        after,
        column,
    ) == column_value(row, column) by {
        match column {
            ColumnView::UpdatedAt => {
                assert(columns.contains(columns[0]));
            },
            ColumnView::CurrentStage => {
                if stage is Some {
                    assert(columns[1] == column);
                }
            },
            ColumnView::Status => {
                if status is Some {
                    let at = if stage is Some {
                        2int
                    } else {
                        1int
                    };
                    assert(columns[at] == column);
                }
            },
            ColumnView::Description => {
                if description is Some {
                    let at = columns.len() - 1;
                    assert(columns[at] == column);
                }
            },
            ColumnView::StageCompleted(_) => {},
        }
    }
}

/// The statement that completes a stage writes the difference between the
/// row that the journal held and the row that it holds afterwards: the
/// completion time of that stage, the stage the feature stands at, and the
/// time of the update.
pub proof fn lemma_mark_stage_complete_agrees(row: FeatureView, name: Seq<char>, stage: int, now: int)
    ensures
        ({
            let statement = mark_stage_complete_statement(name, stage, now);
            let columns = seq![
                ColumnView::StageCompleted(stage),
                ColumnView::CurrentStage,
                ColumnView::UpdatedAt,
            ];
            &&& statement.params == seq![
                SqlValueView::Integer(now),
                SqlValueView::Integer(stage),
                SqlValueView::Integer(now),
                SqlValueView::Text(name),
            ]
            &&& writes_difference(
                columns,
                statement.params.drop_last(),
                row,
                staged(row, stage, now),
            )
        }),
{
    let statement = mark_stage_complete_statement(name, stage, now);
    let columns = seq![
        ColumnView::StageCompleted(stage),
        ColumnView::CurrentStage,
        ColumnView::UpdatedAt,
    ];
    let values = statement.params.drop_last();
    let after = staged(row, stage, now);
    assert(statement.params =~= seq![
        SqlValueView::Integer(now),
        SqlValueView::Integer(stage),
        SqlValueView::Integer(now),
        SqlValueView::Text(name),
    ]);
    assert(values =~= seq![
        SqlValueView::Integer(now),
        SqlValueView::Integer(stage),
        SqlValueView::Integer(now),
    ]);
    assert forall|column: ColumnView| !columns.contains(column) implies #[trigger] column_value(
        after,
        column,
    ) == column_value(row, column) by {
        match column {
            ColumnView::UpdatedAt => {
                assert(columns[2] == column);
            },
            ColumnView::CurrentStage => {
                assert(columns[1] == column);
            },
            ColumnView::StageCompleted(other) => {
                if other == stage {
                    assert(columns[0] == column);
                }
            },
            _ => {},
        }
    }
}

/// The statement that records a file change binds what the journal writes
/// into the row of the change.
pub proof fn lemma_record_file_change_agrees(
    j: JournalView,
    token: Seq<char>,
    file_path: Seq<char>,
    change_type: Seq<char>,
    step_id: Option<int>,
    description: Option<Seq<char>>,
    now: int,
)
    ensures
        record_file_change_statement(token, file_path, change_type, step_id, description, now).params
            == file_change_values(
            j.new_file_change(token, file_path, change_type, step_id, description, now),
        ),
{
    assert(record_file_change_statement(
        token,
        file_path,
        change_type,
        step_id,
        description,
        now,
    ).params =~= file_change_values(
        j.new_file_change(token, file_path, change_type, step_id, description, now),
    ));
}

/// The statement that records a decision binds what the journal writes into
/// the row of the decision: the same decision type where it was left out.
pub proof fn lemma_record_decision_agrees(
    j: JournalView,
    token: Seq<char>,
    question: Seq<char>,
    choice: Seq<char>,
    decision_type: Option<Seq<char>>,
    feature_name: Option<Seq<char>>,
    rationale: Option<Seq<char>>,
    now: int,
)
    ensures
        record_decision_statement(
            token,
            question,
            choice,
            decision_type,
            feature_name,
            rationale,
            now,
        ).params == decision_values(
            j.new_decision(token, question, choice, decision_type, feature_name, rationale, now),
        ),
{
    assert(record_decision_statement(
        token,
        question,
        choice,
        decision_type,
        feature_name,
        rationale,
        now,
    ).params =~= decision_values(
        j.new_decision(token, question, choice, decision_type, feature_name, rationale, now),
    ));
}

} // verus!
