//! The orchestrator: a state machine that runs the three-stage pipeline
//! (generate, then git-init and install-deps, then a report) over a batch of
//! projects.
//!
//! The orchestrator itself makes every decision but performs no side effect:
//! the surrounding shell asks it what to do (which directory to create, which
//! commands to spawn), does it, and hands the results back. Each stage is a
//! barrier: the next stage's commands can only be asked for once every result
//! of the previous stage has been recorded.

use vstd::prelude::*;

use crate::outcome::{
    lemma_outcome_decisive, outcome_of, spec_outcome, OutcomeView, ProcessResult, StageOutcome,
};
use crate::planner::{plan, spec_plan, Plan, Stage};
use crate::projects::{Project, ProjectView};

verus! {

/// Where a run stands. Phases only ever advance: `Init` to `Generating` to
/// `Dispatching` to `Reporting` to `Done`, with one shortcut from `Init`
/// straight to `Done` when the run root cannot be created.
#[derive(Debug, Clone, Copy, PartialEq, Eq, Structural)]
pub enum Phase {
    Init,
    Generating,
    Dispatching,
    Reporting,
    Done,
}

/// The position of a phase in the pipeline's fixed order.
pub open spec fn spec_phase_index(p: Phase) -> int {
    match p {
        Phase::Init => 0,
        Phase::Generating => 1,
        Phase::Dispatching => 2,
        Phase::Reporting => 3,
        Phase::Done => 4,
    }
}

/// The one fatal error: the run root could not be created, so no project has
/// anywhere to go and the whole run aborts.
#[derive(Debug, Clone, PartialEq, Eq)]
pub struct FatalSetupError {
    pub reason: String,
}

/// The outcome recorded, without spawning anything, for a later stage of a
/// project whose generation failed.
pub open spec fn spec_skip_outcome() -> OutcomeView {
    OutcomeView::Skipped("generation failed"@)
}

/// A recorded later-stage cell, seen at the ghost level.
pub open spec fn opt_outcome_view(o: Option<StageOutcome>) -> Option<OutcomeView> {
    match o {
        Option::Some(s) => Option::Some(s@),
        Option::None => Option::None,
    }
}

/// Whether a project's flags ask for `stage` at all.
pub open spec fn spec_stage_flag(p: ProjectView, stage: Stage) -> bool {
    match stage {
        Stage::Generate => true,
        Stage::GitInit => p.init_git,
        Stage::InstallDeps => p.should_install,
    }
}

/// Project `i` takes part in `stage`: its generation succeeded and its flags
/// ask for the stage.
pub open spec fn spec_selected(
    specs: Seq<Project>,
    gen: Seq<StageOutcome>,
    stage: Stage,
    i: int,
) -> bool {
    gen[i]@ is Succeeded && spec_stage_flag(specs[i]@, stage)
}

/// The indices of the projects that take part in `stage`, in input order,
/// among the first `n` projects.
pub open spec fn spec_worklist_upto(
    specs: Seq<Project>,
    gen: Seq<StageOutcome>,
    stage: Stage,
    n: int,
) -> Seq<int>
    decreases n,
{
    if n <= 0 {
        Seq::empty()
    } else if spec_selected(specs, gen, stage, n - 1) {
        spec_worklist_upto(specs, gen, stage, n - 1) + seq![n - 1]
    } else {
        spec_worklist_upto(specs, gen, stage, n - 1)
    }
}

/// Every entry of a worklist prefix is a selected index below `n`, the
/// entries are strictly increasing, and every selected index below `n` is an
/// entry.
pub proof fn lemma_worklist_upto_props(
    specs: Seq<Project>,
    gen: Seq<StageOutcome>,
    stage: Stage,
    n: int,
)
    requires
        n >= 0,
    ensures
        forall|j: int|
            0 <= j < spec_worklist_upto(specs, gen, stage, n).len() ==> {
                &&& 0 <= #[trigger] spec_worklist_upto(specs, gen, stage, n)[j] < n
                &&& spec_selected(specs, gen, stage, spec_worklist_upto(specs, gen, stage, n)[j])
            },
        forall|j: int, k: int|
            0 <= j < k < spec_worklist_upto(specs, gen, stage, n).len() ==> spec_worklist_upto(
                specs,
                gen,
                stage,
                n,
            )[j] < spec_worklist_upto(specs, gen, stage, n)[k],
        forall|i: int|
            0 <= i < n && spec_selected(specs, gen, stage, i) ==> spec_worklist_upto(
                specs,
                gen,
                stage,
                n,
            ).contains(i),
    decreases n,
{
    if n > 0 {
        lemma_worklist_upto_props(specs, gen, stage, n - 1);
        let prev = spec_worklist_upto(specs, gen, stage, n - 1);
        let cur = spec_worklist_upto(specs, gen, stage, n);
        assert forall|i: int| 0 <= i < n && spec_selected(specs, gen, stage, i) implies cur.contains(
            i,
        ) by {
            if i < n - 1 {
                let j = choose|j: int| 0 <= j < prev.len() && prev[j] == i;
                assert(cur[j] == i);
            } else {
                assert(cur[cur.len() - 1] == i);
            }
        }
    }
}

/// One run of the pipeline: the batch of projects, where their directories
/// go, where the run stands, and every outcome recorded so far.
pub struct Orchestrator {
    pub specs: Vec<Project>,
    pub run_root: String,
    pub phase: Phase,
    pub generate_outcomes: Vec<StageOutcome>,
    pub git_init_outcomes: Vec<Option<StageOutcome>>,
    pub install_deps_outcomes: Vec<Option<StageOutcome>>,
}

impl Orchestrator {
    pub open spec fn n(self) -> int {
        self.specs@.len() as int
    }

    /// The indices of the projects that take part in `stage`, in input order.
    pub open spec fn worklist(self, stage: Stage) -> Seq<int> {
        spec_worklist_upto(self.specs@, self.generate_outcomes@, stage, self.n())
    }

    /// Project `i` takes part in `stage`.
    pub open spec fn selected(self, stage: Stage, i: int) -> bool {
        spec_selected(self.specs@, self.generate_outcomes@, stage, i)
    }

    /// Every recorded generation outcome is decisive: a process either
    /// succeeded or failed; only later stages can be skipped.
    pub open spec fn generation_decisive(self) -> bool {
        forall|i: int|
            0 <= i < self.generate_outcomes@.len() ==> (#[trigger] self.generate_outcomes@[i]@
                is Succeeded || self.generate_outcomes@[i]@ is Failed)
    }

    /// The recorded later-stage outcome for project `i`, had nothing been
    /// spawned for it: skipped when its generation failed, absent otherwise.
    pub open spec fn spec_default_outcome(self, i: int) -> Option<OutcomeView> {
        if self.generate_outcomes@[i]@ is Failed {
            Option::Some(spec_skip_outcome())
        } else {
            Option::None
        }
    }

    /// The shape the two later-stage outcome columns have once dispatch is
    /// recorded: a project whose generation failed is marked skipped in both,
    /// one that succeeded has an outcome exactly where its flags asked for
    /// the stage, and no recorded outcome of a spawned process is a skip.
    pub open spec fn dispatch_recorded(self) -> bool {
        &&& self.git_init_outcomes@.len() == self.n()
        &&& self.install_deps_outcomes@.len() == self.n()
        &&& forall|i: int|
            0 <= i < self.n() && self.generate_outcomes@[i]@ is Failed ==> {
                &&& #[trigger] self.git_init_outcomes@[i] matches Option::Some(s) && s@
                    == spec_skip_outcome()
                &&& self.install_deps_outcomes@[i] matches Option::Some(s2) && s2@
                    == spec_skip_outcome()
            }
        &&& forall|i: int|
            0 <= i < self.n() && self.generate_outcomes@[i]@ is Succeeded ==> {
                &&& (#[trigger] self.git_init_outcomes@[i] is Some <==> self.specs@[i]@.init_git)
                &&& (self.install_deps_outcomes@[i] is Some <==> self.specs@[i]@.should_install)
                &&& (self.git_init_outcomes@[i] matches Option::Some(s) ==> !(s@ is Skipped))
                &&& (self.install_deps_outcomes@[i] matches Option::Some(s2) ==> !(s2@ is Skipped))
            }
    }

    /// The state invariant, phase by phase.
    pub open spec fn wf(self) -> bool {
        &&& (forall|i: int| 0 <= i < self.n() ==> (#[trigger] self.specs@[i]@).valid())
        &&& match self.phase {
            Phase::Init | Phase::Generating => {
                &&& self.generate_outcomes@.len() == 0
                &&& self.git_init_outcomes@.len() == 0
                &&& self.install_deps_outcomes@.len() == 0
            },
            Phase::Dispatching => {
                &&& self.generate_outcomes@.len() == self.n()
                &&& self.generation_decisive()
                &&& self.git_init_outcomes@.len() == 0
                &&& self.install_deps_outcomes@.len() == 0
            },
            Phase::Reporting => {
                &&& self.generate_outcomes@.len() == self.n()
                &&& self.generation_decisive()
                &&& self.dispatch_recorded()
            },
            Phase::Done => {
                ||| {
                    // the run was aborted in `Init`: nothing was ever recorded
                    &&& self.generate_outcomes@.len() == 0
                    &&& self.git_init_outcomes@.len() == 0
                    &&& self.install_deps_outcomes@.len() == 0
                }
                ||| {
                    &&& self.generate_outcomes@.len() == self.n()
                    &&& self.generation_decisive()
                    &&& self.dispatch_recorded()
                }
            },
        }
    }

    /// A fresh run over `specs`, to be laid out under `run_root`. Nothing has
    /// happened yet.
    pub fn new(specs: Vec<Project>, run_root: String) -> (r: Self)
        requires
            forall|i: int| 0 <= i < specs@.len() ==> (#[trigger] specs@[i]@).valid(),
        ensures
            r.wf(),
            r.phase == Phase::Init,
            r.specs == specs,
            r.run_root == run_root,
    {
        Orchestrator {
            specs,
            run_root,
            phase: Phase::Init,
            generate_outcomes: Vec::new(),
            git_init_outcomes: Vec::new(),
            install_deps_outcomes: Vec::new(),
        }
    }

    /// The one action of `Init`: create this directory. It can only be asked
    /// for while the run is in `Init`, so it is asked for at most once.
    pub fn root_dir_path(&self) -> (r: &String)
        requires
            self.phase == Phase::Init,
        ensures
            r == &self.run_root,
    {
        &self.run_root
    }

    /// Records whether the run root could be created. On failure the whole
    /// run aborts: the phase jumps straight to `Done`, so no stage can ever
    /// hand out a command to spawn.
    pub fn on_root_created(&mut self, created: Result<(), String>) -> (r: Result<
        (),
        FatalSetupError,
    >)
        requires
            old(self).wf(),
            old(self).phase == Phase::Init,
        ensures
            final(self).wf(),
            final(self).specs == old(self).specs,
            final(self).run_root == old(self).run_root,
            spec_phase_index(final(self).phase) > spec_phase_index(old(self).phase),
            created is Ok ==> final(self).phase == Phase::Generating && r is Ok,
            created matches Err(m) ==> {
                &&& final(self).phase == Phase::Done
                &&& final(self).generate_outcomes@.len() == 0
                &&& r matches Err(e) && e.reason == m
            },
    {
        match created {
            Result::Ok(()) => {
                self.phase = Phase::Generating;
                Result::Ok(())
            },
            Result::Err(m) => {
                self.phase = Phase::Done;
                Result::Err(FatalSetupError { reason: m })
            },
        }
    }

    /// The generate-stage commands, one per project, in input order. They are
    /// all handed out together: the shell spawns them concurrently and owes
    /// one result per project.
    pub fn generate_plans(&self) -> (r: Vec<Plan>)
        requires
            self.wf(),
            self.phase == Phase::Generating,
        ensures
            r@.len() == self.specs@.len(),
            forall|i: int|
                0 <= i < r@.len() ==> #[trigger] r@[i]@ == spec_plan(
                    self.specs@[i]@,
                    Stage::Generate,
                    self.run_root@,
                ),
    {
        let mut r: Vec<Plan> = Vec::new();
        let mut i: usize = 0;
        while i < self.specs.len()
            invariant
                self.wf(),
                i <= self.specs@.len(),
                r@.len() == i,
                forall|k: int|
                    0 <= k < i ==> #[trigger] r@[k]@ == spec_plan(
                        self.specs@[k]@,
                        Stage::Generate,
                        self.run_root@,
                    ),
            decreases self.specs@.len() - i,
        {
            r.push(plan(&self.specs[i], Stage::Generate, self.run_root.as_str()));
            i += 1;
        }
        r
    }

    /// Records the result of every generate-stage process and closes the
    /// stage barrier: only now can the later stages' worklists exist. Each
    /// project's outcome is classified from its own process result alone.
    pub fn record_generate(&mut self, results: &Vec<ProcessResult>)
        requires
            old(self).wf(),
            old(self).phase == Phase::Generating,
            results@.len() == old(self).specs@.len(),
        ensures
            final(self).wf(),
            final(self).phase == Phase::Dispatching,
            final(self).specs == old(self).specs,
            final(self).run_root == old(self).run_root,
            spec_phase_index(final(self).phase) > spec_phase_index(old(self).phase),
            final(self).generate_outcomes@.len() == results@.len(),
            forall|i: int|
                0 <= i < results@.len() ==> #[trigger] final(self).generate_outcomes@[i]@
                    == spec_outcome(results@[i]@),
    {
        let mut outcomes: Vec<StageOutcome> = Vec::new();
        let mut i: usize = 0;
        while i < results.len()
            invariant
                i <= results@.len(),
                outcomes@.len() == i,
                forall|k: int|
                    0 <= k < i ==> #[trigger] outcomes@[k]@ == spec_outcome(results@[k]@),
            decreases results@.len() - i,
        {
            outcomes.push(outcome_of(&results[i]));
            i += 1;
        }
        proof {
            assert forall|i: int|
                0 <= i < outcomes@.len() implies (#[trigger] outcomes@[i]@ is Succeeded
                || outcomes@[i]@ is Failed) by {
                lemma_outcome_decisive(results@[i]@);
            }
        }
        self.generate_outcomes = outcomes;
        self.phase = Phase::Dispatching;
    }

    /// The commands of one later stage, each paired with the index of the
    /// project it belongs to: exactly the projects whose generation succeeded
    /// and whose flags ask for the stage, in input order. A project whose
    /// generation failed is never in this list — nothing is spawned for it.
    pub fn stage_plans(&self, stage: Stage) -> (r: Vec<(usize, Plan)>)
        requires
            self.wf(),
            self.phase == Phase::Dispatching,
            !(stage is Generate),
        ensures
            r@.len() == self.worklist(stage).len(),
            forall|j: int|
                #![trigger r@[j]]
                0 <= j < r@.len() ==> {
                    &&& r@[j].0 as int == self.worklist(stage)[j]
                    &&& r@[j].1@ == spec_plan(
                        self.specs@[self.worklist(stage)[j]]@,
                        stage,
                        self.run_root@,
                    )
                },
    {
        let n = self.specs.len();
        let mut r: Vec<(usize, Plan)> = Vec::new();
        let mut i: usize = 0;
        while i < n
            invariant
                self.wf(),
                self.phase == Phase::Dispatching,
                !(stage is Generate),
                n == self.n(),
                i <= n,
                r@.len() == spec_worklist_upto(
                    self.specs@,
                    self.generate_outcomes@,
                    stage,
                    i as int,
                ).len(),
                forall|j: int|
                    #![trigger r@[j]]
                    0 <= j < r@.len() ==> {
                        &&& r@[j].0 as int == spec_worklist_upto(
                            self.specs@,
                            self.generate_outcomes@,
                            stage,
                            i as int,
                        )[j]
                        &&& r@[j].1@ == spec_plan(
                            self.specs@[spec_worklist_upto(
                                self.specs@,
                                self.generate_outcomes@,
                                stage,
                                i as int,
                            )[j]]@,
                            stage,
                            self.run_root@,
                        )
                    },
            decreases n - i,
        {
            let succeeded = matches!(self.generate_outcomes[i], StageOutcome::Succeeded);
            let flagged = match stage {
                Stage::Generate => true,
                Stage::GitInit => self.specs[i].init_git,
                Stage::InstallDeps => self.specs[i].should_install,
            };
            proof {
                assert(succeeded == self.generate_outcomes@[i as int]@ is Succeeded);
                assert(spec_worklist_upto(self.specs@, self.generate_outcomes@, stage, i + 1)
                    == if self.selected(stage, i as int) {
                    spec_worklist_upto(self.specs@, self.generate_outcomes@, stage, i as int)
                        + seq![i as int]
                } else {
                    spec_worklist_upto(self.specs@, self.generate_outcomes@, stage, i as int)
                });
            }
            if succeeded && flagged {
                r.push((i, plan(&self.specs[i], stage, self.run_root.as_str())));
            }
            i += 1;
        }
        r
    }

    /// One later-stage outcome column: the recorded result for every project
    /// that took part, the skip marker for every project whose generation
    /// failed, and nothing for the rest.
    fn stage_outcomes_column(&self, stage: Stage, results: &Vec<(usize, ProcessResult)>) -> (r:
        Vec<Option<StageOutcome>>)
        requires
            self.wf(),
            self.phase == Phase::Dispatching,
            !(stage is Generate),
            results@.len() == self.worklist(stage).len(),
            forall|j: int|
                0 <= j < results@.len() ==> #[trigger] results@[j].0 as int == self.worklist(
                    stage,
                )[j],
        ensures
            r@.len() == self.n(),
            forall|j: int|
                0 <= j < results@.len() ==> opt_outcome_view(
                    #[trigger] r@[self.worklist(stage)[j]],
                ) == Option::Some(spec_outcome(results@[j].1@)),
            forall|i: int|
                0 <= i < self.n() && !self.selected(stage, i) ==> opt_outcome_view(#[trigger] r@[i])
                    == self.spec_default_outcome(i),
            forall|i: int|
                0 <= i < self.n() && self.generate_outcomes@[i]@ is Failed ==> (#[trigger] r@[i]
                    matches Option::Some(s) && s@ == spec_skip_outcome()),
            forall|i: int|
                0 <= i < self.n() && self.generate_outcomes@[i]@ is Succeeded ==> {
                    &&& (#[trigger] r@[i] is Some <==> spec_stage_flag(self.specs@[i]@, stage))
                    &&& (r@[i] matches Option::Some(s) ==> !(s@ is Skipped))
                },
    {
        let ghost wl = self.worklist(stage);
        proof {
            lemma_worklist_upto_props(self.specs@, self.generate_outcomes@, stage, self.n());
        }
        let n = self.specs.len();
        let mut col: Vec<Option<StageOutcome>> = Vec::new();
        let mut i: usize = 0;
        while i < n
            invariant
                self.wf(),
                self.phase == Phase::Dispatching,
                n == self.n(),
                i <= n,
                col@.len() == i,
                forall|k: int|
                    0 <= k < i ==> opt_outcome_view(#[trigger] col@[k])
                        == self.spec_default_outcome(k),
            decreases n - i,
        {
            if matches!(self.generate_outcomes[i], StageOutcome::Failed(_)) {
                col.push(Option::Some(StageOutcome::Skipped(String::from_str("generation failed"))));
            } else {
                col.push(Option::None);
            }
            i += 1;
        }
        let mut j: usize = 0;
        while j < results.len()
            invariant
                self.wf(),
                self.phase == Phase::Dispatching,
                !(stage is Generate),
                n == self.n(),
                wl == self.worklist(stage),
                results@.len() == wl.len(),
                forall|jj: int|
                    0 <= jj < results@.len() ==> #[trigger] results@[jj].0 as int == wl[jj],
                forall|jj: int, kk: int| 0 <= jj < kk < wl.len() ==> wl[jj] < wl[kk],
                forall|jj: int|
                    0 <= jj < wl.len() ==> 0 <= #[trigger] wl[jj] < n && self.selected(
                        stage,
                        wl[jj],
                    ),
                j <= results@.len(),
                col@.len() == n,
                forall|k: int|
                    0 <= k < j ==> opt_outcome_view(#[trigger] col@[wl[k]]) == Option::Some(
                        spec_outcome(results@[k].1@),
                    ),
                forall|i2: int|
                    0 <= i2 < n && !self.selected(stage, i2) ==> opt_outcome_view(
                        #[trigger] col@[i2],
                    ) == self.spec_default_outcome(i2),
            decreases results@.len() - j,
        {
            let idx = results[j].0;
            let o = outcome_of(&results[j].1);
            col[idx] = Option::Some(o);
            j += 1;
        }
        proof {
            assert forall|i: int|
                0 <= i < self.n() && self.generate_outcomes@[i]@ is Failed implies (
            #[trigger] col@[i] matches Option::Some(s) && s@ == spec_skip_outcome()) by {
                assert(!self.selected(stage, i));
                assert(opt_outcome_view(col@[i]) == self.spec_default_outcome(i));
            }
            assert forall|i: int|
                0 <= i < self.n() && self.generate_outcomes@[i]@ is Succeeded implies {
                &&& (#[trigger] col@[i] is Some <==> spec_stage_flag(self.specs@[i]@, stage))
                &&& (col@[i] matches Option::Some(s) ==> !(s@ is Skipped))
            } by {
                if spec_stage_flag(self.specs@[i]@, stage) {
                    assert(self.selected(stage, i));
                    assert(wl.contains(i));
                    let k = choose|k: int| 0 <= k < wl.len() && wl[k] == i;
                    assert(opt_outcome_view(col@[wl[k]]) == Option::Some(
                        spec_outcome(results@[k].1@),
                    ));
                    lemma_outcome_decisive(results@[k].1@);
                } else {
                    assert(!self.selected(stage, i));
                    assert(opt_outcome_view(col@[i]) == self.spec_default_outcome(i));
                }
            }
        }
        col
    }

    /// Records the results of the two later stages, which ran concurrently
    /// with each other, and moves the run to reporting. Every project whose
    /// generation failed is marked skipped in both columns without anything
    /// having been spawned for it.
    pub fn record_dispatch(
        &mut self,
        git_results: &Vec<(usize, ProcessResult)>,
        deps_results: &Vec<(usize, ProcessResult)>,
    )
        requires
            old(self).wf(),
            old(self).phase == Phase::Dispatching,
            git_results@.len() == old(self).worklist(Stage::GitInit).len(),
            forall|j: int|
                0 <= j < git_results@.len() ==> #[trigger] git_results@[j].0 as int == old(
                    self,
                ).worklist(Stage::GitInit)[j],
            deps_results@.len() == old(self).worklist(Stage::InstallDeps).len(),
            forall|j: int|
                0 <= j < deps_results@.len() ==> #[trigger] deps_results@[j].0 as int == old(
                    self,
                ).worklist(Stage::InstallDeps)[j],
        ensures
            final(self).wf(),
            final(self).phase == Phase::Reporting,
            final(self).specs == old(self).specs,
            final(self).run_root == old(self).run_root,
            final(self).generate_outcomes == old(self).generate_outcomes,
            spec_phase_index(final(self).phase) > spec_phase_index(old(self).phase),
            forall|j: int|
                0 <= j < git_results@.len() ==> opt_outcome_view(
                    #[trigger] final(self).git_init_outcomes@[old(self).worklist(
                        Stage::GitInit,
                    )[j]],
                ) == Option::Some(spec_outcome(git_results@[j].1@)),
            forall|i: int|
                0 <= i < old(self).n() && !old(self).selected(Stage::GitInit, i)
                    ==> opt_outcome_view(#[trigger] final(self).git_init_outcomes@[i]) == old(
                    self,
                ).spec_default_outcome(i),
            forall|j: int|
                0 <= j < deps_results@.len() ==> opt_outcome_view(
                    #[trigger] final(self).install_deps_outcomes@[old(self).worklist(
                        Stage::InstallDeps,
                    )[j]],
                ) == Option::Some(spec_outcome(deps_results@[j].1@)),
            forall|i: int|
                0 <= i < old(self).n() && !old(self).selected(Stage::InstallDeps, i)
                    ==> opt_outcome_view(#[trigger] final(self).install_deps_outcomes@[i]) == old(
                    self,
                ).spec_default_outcome(i),
    {
        let git_col = self.stage_outcomes_column(Stage::GitInit, git_results);
        let deps_col = self.stage_outcomes_column(Stage::InstallDeps, deps_results);
        self.git_init_outcomes = git_col;
        self.install_deps_outcomes = deps_col;
        self.phase = Phase::Reporting;
    }

    /// The report lines owed for project `i`: its generation outcome, then
    /// one line for each later stage that was attempted or skipped.
    pub open spec fn spec_project_report(self, i: int) -> Seq<Seq<char>> {
        seq![
            spec_report_line(
                self.specs@[i]@.name,
                Stage::Generate,
                self.generate_outcomes@[i].spec_describe(),
            ),
        ] + match self.git_init_outcomes@[i] {
            Option::Some(s) => seq![
                spec_report_line(self.specs@[i]@.name, Stage::GitInit, s.spec_describe()),
            ],
            Option::None => Seq::empty(),
        } + match self.install_deps_outcomes@[i] {
            Option::Some(s) => seq![
                spec_report_line(self.specs@[i]@.name, Stage::InstallDeps, s.spec_describe()),
            ],
            Option::None => Seq::empty(),
        }
    }

    /// The report lines of the first `n` projects, in input order.
    pub open spec fn spec_report_upto(self, n: int) -> Seq<Seq<char>>
        decreases n,
    {
        if n <= 0 {
            Seq::empty()
        } else {
            self.spec_report_upto(n - 1) + self.spec_project_report(n - 1)
        }
    }

    /// The whole report.
    pub open spec fn spec_report(self) -> Seq<Seq<char>> {
        self.spec_report_upto(self.n())
    }

    /// The final per-project summary: one line per project per stage
    /// attempted or skipped. Building it never fails.
    pub fn report_lines(&self) -> (r: Vec<String>)
        requires
            self.wf(),
            self.phase == Phase::Reporting,
        ensures
            r.deep_view() == self.spec_report(),
    {
        let n = self.specs.len();
        let mut lines: Vec<String> = Vec::new();
        let mut i: usize = 0;
        while i < n
            invariant
                self.wf(),
                self.phase == Phase::Reporting,
                n == self.n(),
                i <= n,
                lines.deep_view() == self.spec_report_upto(i as int),
            decreases n - i,
        {
            let ghost before = lines.deep_view();
            lines.push(
                report_line(&self.specs[i].name, Stage::Generate, &self.generate_outcomes[i]),
            );
            match &self.git_init_outcomes[i] {
                Option::Some(s) => {
                    lines.push(report_line(&self.specs[i].name, Stage::GitInit, s));
                },
                Option::None => {},
            }
            match &self.install_deps_outcomes[i] {
                Option::Some(s) => {
                    lines.push(report_line(&self.specs[i].name, Stage::InstallDeps, s));
                },
                Option::None => {},
            }
            proof {
                assert(lines.deep_view() =~= before + self.spec_project_report(i as int));
            }
            i += 1;
        }
        lines
    }

    /// Closes the run.
    pub fn finish(&mut self)
        requires
            old(self).wf(),
            old(self).phase == Phase::Reporting,
        ensures
            final(self).wf(),
            final(self).phase == Phase::Done,
            final(self).specs == old(self).specs,
            final(self).run_root == old(self).run_root,
            final(self).generate_outcomes == old(self).generate_outcomes,
            final(self).git_init_outcomes == old(self).git_init_outcomes,
            final(self).install_deps_outcomes == old(self).install_deps_outcomes,
            spec_phase_index(final(self).phase) > spec_phase_index(old(self).phase),
    {
        self.phase = Phase::Done;
    }
}

/// One report line: the project, the stage, and how it went.
pub open spec fn spec_report_line(name: Seq<char>, stage: Stage, described: Seq<char>) -> Seq<
    char,
> {
    name + ": "@ + stage.spec_label() + ": "@ + described
}

/// Renders one report line.
pub fn report_line(name: &String, stage: Stage, outcome: &StageOutcome) -> (r: String)
    ensures
        r@ == spec_report_line(name@, stage, outcome.spec_describe()),
{
    let mut r = name.clone();
    r.append(": ");
    r.append(stage.label().as_str());
    r.append(": ");
    r.append(outcome.describe().as_str());
    r
}

/// A project whose generation failed ends the run with both later stages
/// recorded as skipped — never succeeded.
pub proof fn lemma_failed_generation_is_skipped(o: Orchestrator, i: int)
    requires
        o.wf(),
        o.phase == Phase::Reporting || o.phase == Phase::Done,
        o.generate_outcomes@.len() == o.specs@.len(),
        0 <= i < o.n(),
        o.generate_outcomes@[i]@ is Failed,
    ensures
        o.git_init_outcomes@[i] matches Option::Some(s) && s@ == spec_skip_outcome(),
        o.install_deps_outcomes@[i] matches Option::Some(s2) && s2@ == spec_skip_outcome(),
{
}

/// No command of a later stage is ever planned for a project whose
/// generation failed: such a project is not on any dispatch worklist.
pub proof fn lemma_failed_generation_never_dispatched(
    o: Orchestrator,
    stage: Stage,
    i: int,
    j: int,
)
    requires
        0 <= i < o.n(),
        i < o.generate_outcomes@.len(),
        o.generate_outcomes@[i]@ is Failed,
        0 <= j < o.worklist(stage).len(),
    ensures
        o.worklist(stage)[j] != i,
{
    lemma_worklist_upto_props(o.specs@, o.generate_outcomes@, stage, o.n());
}

/// The stage barrier: dispatch-stage commands can only be asked for in the
/// `Dispatching` phase, and any orchestrator in that phase already holds a
/// recorded, decisive generation outcome for every project.
pub proof fn lemma_stage_barrier(o: Orchestrator)
    requires
        o.wf(),
        o.phase == Phase::Dispatching,
    ensures
        o.generate_outcomes@.len() == o.specs@.len(),
        forall|i: int|
            0 <= i < o.n() ==> (#[trigger] o.generate_outcomes@[i]@ is Succeeded
                || o.generate_outcomes@[i]@ is Failed),
{
}

/// Within one stage a project's recorded outcome depends on its own process
/// result alone: however its siblings fared, and however slow or fast they
/// were, the outcome classified at position `i` is the same in any two
/// result batches that agree there.
pub proof fn lemma_outcome_independence(
    r1: Seq<crate::outcome::ProcessResultView>,
    r2: Seq<crate::outcome::ProcessResultView>,
    i: int,
)
    requires
        0 <= i < r1.len(),
        0 <= i < r2.len(),
        r1[i] == r2[i],
    ensures
        spec_outcome(r1[i]) == spec_outcome(r2[i]),
{
}

/// Along any phase history of a run, phases advance strictly.
pub proof fn lemma_phase_monotone(trace: Seq<Phase>, k: int, l: int)
    requires
        forall|m: int|
            #![trigger trace[m]]
            0 <= m < trace.len() - 1 ==> spec_phase_index(trace[m]) < spec_phase_index(
                trace[m + 1],
            ),
        0 <= k < l < trace.len(),
    ensures
        spec_phase_index(trace[k]) < spec_phase_index(trace[l]),
    decreases l - k,
{
    if k + 1 < l {
        lemma_phase_monotone(trace, k + 1, l);
    }
}

/// The run root is created only while the run is in `Init`, and along any
/// phase history `Init` is never revisited: creating the root directory is
/// attempted at most once per run.
pub proof fn lemma_init_visited_once(trace: Seq<Phase>, k: int, l: int)
    requires
        forall|m: int|
            #![trigger trace[m]]
            0 <= m < trace.len() - 1 ==> spec_phase_index(trace[m]) < spec_phase_index(
                trace[m + 1],
            ),
        0 <= k < l < trace.len(),
        trace[k] is Init,
    ensures
        !(trace[l] is Init),
{
    lemma_phase_monotone(trace, k, l);
}

} // verus!
