//! The feature tracker: one row per feature name, created on first
//! reference, updated in place afterwards, and advanced through the fixed
//! stages one completion time at a time.

use vstd::prelude::*;
use crate::clock::now_ms;
use crate::error::JournalError;
use crate::journal::Journal;
use crate::model::{feature_row_wf, lemma_links_kept, JournalView};
use crate::stage::{is_stage, Stage};
use crate::records::{
    int_of, owned_text, str_of, Feature, FeatureView, STAGE_COUNT, STATUS_IN_PROGRESS,
};

verus! {

/// A feature after a partial update: the time of the update is always
/// written, each field that was supplied replaces what was stored, and each
/// field that was left out keeps its stored value.
pub open spec fn touched(
    f: FeatureView,
    stage: Option<int>,
    status: Option<Seq<char>>,
    description: Option<Seq<char>>,
    now: int,
) -> FeatureView {
    FeatureView {
        updated_at: now,
        current_stage: match stage {
            Some(s) => s,
            None => f.current_stage,
        },
        status: match status {
            Some(s) => s,
            None => f.status,
        },
        description: match description {
            Some(d) => Some(d),
            None => f.description,
        },
        ..f
    }
}

/// A feature after one of its stages was completed: that stage gets its
/// completion time, the feature stands at that stage, and no other stage's
/// completion time is touched.
pub open spec fn staged(f: FeatureView, stage: int, now: int) -> FeatureView {
    FeatureView {
        stage_completed: f.stage_completed.insert(stage, now),
        current_stage: stage,
        updated_at: now,
        ..f
    }
}

impl JournalView {
    /// The place of the feature of this name among the features.
    pub open spec fn feature_index(self, name: Seq<char>) -> int {
        choose|i: int| 0 <= i < self.features.len() && (#[trigger] self.features[i]).feature_name == name
    }

    /// The row of a feature that is referenced for the first time. A stage
    /// that is left out is 0, a status that is left out is "in_progress", and
    /// no stage is completed yet.
    pub open spec fn new_feature(
        self,
        name: Seq<char>,
        project: Seq<char>,
        stage: Option<int>,
        status: Option<Seq<char>>,
        description: Option<Seq<char>>,
        now: int,
    ) -> FeatureView {
        FeatureView {
            id: self.features.len() as int + 1,
            feature_name: name,
            project,
            created_at: now,
            updated_at: now,
            current_stage: match stage {
                Some(s) => s,
                None => 0,
            },
            status: match status {
                Some(s) => s,
                None => STATUS_IN_PROGRESS@,
            },
            description,
            stage_completed: Map::empty(),
        }
    }

    /// Why a feature cannot be referenced, if it cannot: it is not known yet
    /// and the store has no row id left for it.
    pub open spec fn upsert_feature_refused(self, name: Seq<char>) -> Option<JournalError> {
        if !self.has_feature(name) && self.features.len() >= i64::MAX {
            Some(JournalError::StoreFull)
        } else {
            None
        }
    }

    /// The journal after a feature was referenced: a known feature is
    /// updated in place and keeps its project, an unknown one gets a new row.
    pub open spec fn upsert_feature(
        self,
        name: Seq<char>,
        project: Seq<char>,
        stage: Option<int>,
        status: Option<Seq<char>>,
        description: Option<Seq<char>>,
        now: int,
    ) -> JournalView {
        if self.has_feature(name) {
            JournalView {
                features: self.features.map_values(
                    |f: FeatureView|
                        if f.feature_name == name {
                            touched(f, stage, status, description, now)
                        } else {
                            f
                        },
                ),
                ..self
            }
        } else {
            JournalView {
                features: self.features.push(
                    self.new_feature(name, project, stage, status, description, now),
                ),
                ..self
            }
        }
    }

    /// The row id that a reference to a feature reports: that of the row it
    /// updated or created.
    pub open spec fn upsert_feature_id(self, name: Seq<char>) -> int {
        if self.has_feature(name) {
            self.features[self.feature_index(name)].id
        } else {
            self.features.len() as int + 1
        }
    }

    /// The journal after a stage of a feature was completed. Nothing changes
    /// where no feature has this name.
    pub open spec fn mark_stage_complete(self, name: Seq<char>, stage: int, now: int) -> JournalView {
        JournalView {
            features: self.features.map_values(
                |f: FeatureView|
                    if f.feature_name == name {
                        staged(f, stage, now)
                    } else {
                        f
                    },
            ),
            ..self
        }
    }
}

/// Referencing a feature keeps the journal well formed.
pub proof fn lemma_upsert_feature_wf(
    j: JournalView,
    name: Seq<char>,
    project: Seq<char>,
    stage: Option<int>,
    status: Option<Seq<char>>,
    description: Option<Seq<char>>,
    now: int,
)
    requires
        j.wf(),
    ensures
        j.upsert_feature(name, project, stage, status, description, now).wf(),
{
    let after = j.upsert_feature(name, project, stage, status, description, now);
    if j.has_feature(name) {
        assert forall|i: int| 0 <= i < after.features.len() implies feature_row_wf(
            #[trigger] after.features[i],
        ) by {
            assert(feature_row_wf(j.features[i]));
        }
        assert forall|i: int, k: int| 0 <= i < k < after.features.len() implies
            (#[trigger] after.features[i]).feature_name != (#[trigger] after.features[k]).feature_name
        by {
            assert(j.features[i].feature_name != j.features[k].feature_name);
        }
    } else {
        let row = j.new_feature(name, project, stage, status, description, now);
        assert forall|i: int| 0 <= i < after.features.len() implies feature_row_wf(
            #[trigger] after.features[i],
        ) by {
            if i < j.features.len() {
                assert(feature_row_wf(j.features[i]));
            }
        }
        assert forall|i: int, k: int| 0 <= i < k < after.features.len() implies
            (#[trigger] after.features[i]).feature_name != (#[trigger] after.features[k]).feature_name
        by {
            if k < j.features.len() {
                assert(j.features[i].feature_name != j.features[k].feature_name);
            } else {
                assert(j.features[i].feature_name != name);
            }
        }
    }
    lemma_links_kept(j, after);
}

impl Journal {
    /// Where the feature of this name stands, if it is known.
    fn find_feature(&self, name: &String) -> (found: Option<usize>)
        ensures
            match found {
                Some(i) => i < self@.features.len() && self@.features[i as int].feature_name == name@,
                None => !self@.has_feature(name@),
            },
    {
        let mut i: usize = 0;
        while i < self.features.len()
            invariant
                i <= self.features.len(),
                forall|j: int| 0 <= j < i ==> (#[trigger] self@.features[j]).feature_name != name@,
            decreases self.features.len() - i,
        {
            if self.features[i].feature_name == *name {
                return Some(i);
            }
            i += 1;
        }
        None
    }

    /// References a feature at a given time: creates it if no feature has
    /// this name, and otherwise overwrites exactly the fields that were
    /// supplied. Returns the row id of the feature.
    ///
    /// Fails only when a new row is needed and the store has no row id left.
    pub fn create_or_update_feature_at(
        &mut self,
        feature_name: &str,
        project: &str,
        current_stage: Option<i64>,
        status: Option<&str>,
        description: Option<&str>,
        now: i64,
    ) -> (outcome: Result<i64, JournalError>)
        requires
            old(self).wf(),
        ensures
            final(self).wf(),
            outcome is Ok <==> old(self)@.upsert_feature_refused(feature_name@) is None,
            outcome is Err ==> {
                &&& Some(outcome->Err_0) == old(self)@.upsert_feature_refused(feature_name@)
                &&& final(self)@ == old(self)@
            },
            outcome is Ok ==> {
                &&& final(self)@ == old(self)@.upsert_feature(
                    feature_name@,
                    project@,
                    int_of(current_stage),
                    str_of(status),
                    str_of(description),
                    now as int,
                )
                &&& outcome->Ok_0 == old(self)@.upsert_feature_id(feature_name@)
            },
    {
        proof {
            lemma_upsert_feature_wf(
                self@,
                feature_name@,
                project@,
                int_of(current_stage),
                str_of(status),
                str_of(description),
                now as int,
            );
        }
        let name = feature_name.to_owned();
        match self.find_feature(&name) {
            Some(i) => {
                let ghost before = self@.features[i as int];
                self.features[i].updated_at = now;
                if let Some(stage) = current_stage {
                    self.features[i].current_stage = stage;
                }
                if let Some(text) = status {
                    self.features[i].status = text.to_owned();
                }
                if let Some(text) = description {
                    self.features[i].description = Some(text.to_owned());
                }
                let id = self.features[i].id;
                proof {
                    let after = old(self)@.upsert_feature(
                        feature_name@,
                        project@,
                        int_of(current_stage),
                        str_of(status),
                        str_of(description),
                        now as int,
                    );
                    assert(self@.features[i as int] == touched(
                        before,
                        int_of(current_stage),
                        str_of(status),
                        str_of(description),
                        now as int,
                    ));
                    assert(self@.features =~= after.features);
                    assert(self@ == after);
                    assert(old(self)@.feature_index(feature_name@) == i);
                }
                Ok(id)
            },
            None => {
                let n: usize = self.features.len();
                if n as u64 >= i64::MAX as u64 {
                    return Err(JournalError::StoreFull);
                }
                let id: i64 = n as i64 + 1;
                let status_text = match status {
                    Some(text) => text.to_owned(),
                    None => STATUS_IN_PROGRESS.to_owned(),
                };
                let stage: i64 = match current_stage {
                    Some(stage) => stage,
                    None => 0,
                };
                let row = Feature {
                    id,
                    feature_name: name,
                    project: project.to_owned(),
                    created_at: now,
                    updated_at: now,
                    current_stage: stage,
                    status: status_text,
                    description: owned_text(description),
                    stage_completed: [None; STAGE_COUNT],
                };
                proof {
                    assert(row@.stage_completed =~= Map::empty());
                    assert(row@ == old(self)@.new_feature(
                        feature_name@,
                        project@,
                        int_of(current_stage),
                        str_of(status),
                        str_of(description),
                        now as int,
                    ));
                }
                self.features.push(row);
                proof {
                    assert(self@.features =~= old(self)@.features.push(row@));
                }
                Ok(id)
            },
        }
    }

    /// References a feature now: [`Journal::create_or_update_feature_at`]
    /// at the time the clock shows.
    pub fn create_or_update_feature(
        &mut self,
        feature_name: &str,
        project: &str,
        current_stage: Option<i64>,
        status: Option<&str>,
        description: Option<&str>,
    ) -> (outcome: Result<i64, JournalError>)
        requires
            old(self).wf(),
        ensures
            final(self).wf(),
            outcome is Ok <==> old(self)@.upsert_feature_refused(feature_name@) is None,
            outcome is Err ==> {
                &&& Some(outcome->Err_0) == old(self)@.upsert_feature_refused(feature_name@)
                &&& final(self)@ == old(self)@
            },
            outcome is Ok ==> {
                &&& exists|now: int|
                    final(self)@ == #[trigger] old(self)@.upsert_feature(
                        feature_name@,
                        project@,
                        int_of(current_stage),
                        str_of(status),
                        str_of(description),
                        now,
                    )
                &&& outcome->Ok_0 == old(self)@.upsert_feature_id(feature_name@)
            },
    {
        let now = now_ms();
        self.create_or_update_feature_at(
            feature_name,
            project,
            current_stage,
            status,
            description,
            now,
        )
    }

    /// Completes a stage of a feature at a given time: the stage gets its
    /// completion time, the feature stands at that stage (also where this
    /// moves it backwards), and its time of update is written. Where no
    /// feature has this name nothing changes, and that is no failure.
    ///
    /// Fails exactly when the stage is not one of the fixed stages.
    pub fn mark_stage_complete_at(
        &mut self,
        feature_name: &str,
        stage: i64,
        now: i64,
    ) -> (outcome: Result<(), JournalError>)
        requires
            old(self).wf(),
        ensures
            final(self).wf(),
            outcome is Ok <==> is_stage(stage as int),
            outcome is Err ==> {
                &&& outcome->Err_0 == JournalError::InvalidStage
                &&& final(self)@ == old(self)@
            },
            outcome is Ok ==> final(self)@ == old(self)@.mark_stage_complete(
                feature_name@,
                stage as int,
                now as int,
            ),
    {
        let slot: usize = match Stage::new(stage) {
            Some(checked) => checked.slot(),
            None => {
                return Err(JournalError::InvalidStage);
            },
        };
        proof {
            lemma_mark_stage_complete_wf(self@, feature_name@, stage as int, now as int);
        }
        let name = feature_name.to_owned();
        match self.find_feature(&name) {
            Some(i) => {
                let ghost before = self@.features[i as int];
                self.features[i].stage_completed[slot] = Some(now);
                self.features[i].current_stage = stage;
                self.features[i].updated_at = now;
                proof {
                    let after = old(self)@.mark_stage_complete(
                        feature_name@,
                        stage as int,
                        now as int,
                    );
                    assert(self@.features[i as int].stage_completed =~= before.stage_completed.insert(
                        stage as int,
                        now as int,
                    ));
                    assert(self@.features[i as int] == staged(before, stage as int, now as int));
                    assert(self@.features =~= after.features);
                }
            },
            None => {
                proof {
                    let after = old(self)@.mark_stage_complete(
                        feature_name@,
                        stage as int,
                        now as int,
                    );
                    assert(self@.features =~= after.features);
                }
            },
        }
        Ok(())
    }

    /// Completes a stage of a feature now:
    /// [`Journal::mark_stage_complete_at`] at the time the clock shows.
    pub fn mark_stage_complete(
        &mut self,
        feature_name: &str,
        stage: i64,
    ) -> (outcome: Result<(), JournalError>)
        requires
            old(self).wf(),
        ensures
            final(self).wf(),
            outcome is Ok <==> is_stage(stage as int),
            outcome is Err ==> {
                &&& outcome->Err_0 == JournalError::InvalidStage
                &&& final(self)@ == old(self)@
            },
            outcome is Ok ==> exists|now: int|
                final(self)@ == #[trigger] old(self)@.mark_stage_complete(
                    feature_name@,
                    stage as int,
                    now,
                ),
    {
        let now = now_ms();
        self.mark_stage_complete_at(feature_name, stage, now)
    }
}

/// Completing one of the fixed stages keeps the journal well formed.
pub proof fn lemma_mark_stage_complete_wf(j: JournalView, name: Seq<char>, stage: int, now: int)
    requires
        j.wf(),
        is_stage(stage),
    ensures
        j.mark_stage_complete(name, stage, now).wf(),
{
    let after = j.mark_stage_complete(name, stage, now);
    assert forall|i: int| 0 <= i < after.features.len() implies feature_row_wf(
        #[trigger] after.features[i],
    ) by {
        assert(feature_row_wf(j.features[i]));
    }
    assert forall|i: int, k: int| 0 <= i < k < after.features.len() implies
        (#[trigger] after.features[i]).feature_name != (#[trigger] after.features[k]).feature_name
    by {
        assert(j.features[i].feature_name != j.features[k].feature_name);
    }
    lemma_links_kept(j, after);
}

/// A feature that is referenced a second time is not recorded a second time.
/// The second reference finds the row of the first and reports its id; in
/// that row each field that the second reference supplies is overwritten,
/// each field that it leaves out keeps the value it had after the first, and
/// the project, the time of creation and the completed stages stay. Every
/// other feature is left as it was.
pub proof fn lemma_upsert_feature_twice(
    j: JournalView,
    name: Seq<char>,
    project: Seq<char>,
    stage: Option<int>,
    status: Option<Seq<char>>,
    description: Option<Seq<char>>,
    now: int,
    project_again: Seq<char>,
    stage_again: Option<int>,
    status_again: Option<Seq<char>>,
    description_again: Option<Seq<char>>,
    later: int,
)
    requires
        j.wf(),
    ensures
        ({
            let first = j.upsert_feature(name, project, stage, status, description, now);
            let second = first.upsert_feature(
                name,
                project_again,
                stage_again,
                status_again,
                description_again,
                later,
            );
            let at = first.feature_index(name);
            &&& first.has_feature(name)
            &&& 0 <= at < first.features.len()
            &&& first.features[at].feature_name == name
            &&& second.features.len() == first.features.len()
            &&& first.upsert_feature_id(name) == j.upsert_feature_id(name)
            &&& first.upsert_feature_id(name) == first.features[at].id
            &&& second.features[at].id == first.features[at].id
            &&& second.features[at].feature_name == name
            &&& second.features[at].project == first.features[at].project
            &&& second.features[at].created_at == first.features[at].created_at
            &&& second.features[at].stage_completed == first.features[at].stage_completed
            &&& second.features[at].updated_at == later
            &&& second.features[at].current_stage == match stage_again {
                Some(s) => s,
                None => first.features[at].current_stage,
            }
            &&& second.features[at].status == match status_again {
                Some(s) => s,
                None => first.features[at].status,
            }
            &&& second.features[at].description == match description_again {
                Some(d) => Some(d),
                None => first.features[at].description,
            }
            &&& forall|i: int|
                0 <= i < first.features.len() && i != at ==> #[trigger] second.features[i]
                    == first.features[i]
            &&& second.sessions == j.sessions
            &&& second.steps == j.steps
            &&& second.file_changes == j.file_changes
            &&& second.decisions == j.decisions
        }),
{
    let first = j.upsert_feature(name, project, stage, status, description, now);
    lemma_upsert_feature_wf(j, name, project, stage, status, description, now);
    if j.has_feature(name) {
        let w = j.feature_index(name);
        assert(first.features[w].feature_name == name);
        assert(first.has_feature(name));
        let at = first.feature_index(name);
        assert(at == w) by {
            if at < w {
                assert(first.features[at].feature_name != first.features[w].feature_name);
            } else if w < at {
                assert(first.features[w].feature_name != first.features[at].feature_name);
            }
        }
    } else {
        let w = j.features.len() as int;
        assert(first.features[w].feature_name == name);
        assert(first.has_feature(name));
        let at = first.feature_index(name);
        assert(at == w) by {
            if at < w {
                assert(first.features[at].feature_name != first.features[w].feature_name);
            }
        }
    }
    let at = first.feature_index(name);
    let second = first.upsert_feature(
        name,
        project_again,
        stage_again,
        status_again,
        description_again,
        later,
    );
    assert forall|i: int| 0 <= i < first.features.len() && i != at implies #[trigger] second.features[i]
        == first.features[i] by {
        if i < at {
            assert(first.features[i].feature_name != first.features[at].feature_name);
        } else {
            assert(first.features[at].feature_name != first.features[i].feature_name);
        }
    }
}

/// Completing a stage of a feature writes the completion time of that stage
/// and of no other: in every feature every other stage is completed or not
/// as it was before, and at the time it was before. Features of another name
/// do not change at all.
pub proof fn lemma_mark_stage_complete_touches_one_stage(
    j: JournalView,
    name: Seq<char>,
    stage: int,
    now: int,
)
    ensures
        ({
            let after = j.mark_stage_complete(name, stage, now);
            &&& after.features.len() == j.features.len()
            &&& forall|i: int|
                0 <= i < j.features.len() && j.features[i].feature_name == name ==> {
                    &&& (#[trigger] after.features[i]).stage_completed.dom().contains(stage)
                    &&& after.features[i].stage_completed[stage] == now
                    &&& after.features[i].current_stage == stage
                    &&& after.features[i].updated_at == now
                }
            &&& forall|i: int, other: int|
                0 <= i < j.features.len() && other != stage ==> {
                    &&& (#[trigger] after.features[i]).stage_completed.dom().contains(other)
                        == j.features[i].stage_completed.dom().contains(other)
                    &&& (#[trigger] after.features[i].stage_completed[other])
                        == j.features[i].stage_completed[other]
                }
            &&& forall|i: int|
                0 <= i < j.features.len() && j.features[i].feature_name != name
                    ==> #[trigger] after.features[i] == j.features[i]
            &&& after.sessions == j.sessions
            &&& after.steps == j.steps
            &&& after.file_changes == j.file_changes
            &&& after.decisions == j.decisions
        }),
{
}

} // verus!
