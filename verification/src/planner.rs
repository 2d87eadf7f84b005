//! The command planner: a pure mapping from one project and one pipeline
//! stage to the fully resolved external command for it.

use vstd::prelude::*;

use crate::package_managers::PackageManager;
use crate::projects::{Project, ProjectView};
use crate::techs::Tech;

verus! {

/// One phase of the pipeline, applied uniformly to a batch of projects.
#[derive(Debug, Clone, Copy, PartialEq, Eq, Structural)]
pub enum Stage {
    Generate,
    GitInit,
    InstallDeps,
}

impl Stage {
    /// The label under which this stage appears in the report.
    pub open spec fn spec_label(self) -> Seq<char> {
        match self {
            Stage::Generate => "generate"@,
            Stage::GitInit => "git-init"@,
            Stage::InstallDeps => "install-deps"@,
        }
    }

    pub fn label(&self) -> (r: String)
        ensures
            r@ == self.spec_label(),
    {
        match self {
            Stage::Generate => String::from_str("generate"),
            Stage::GitInit => String::from_str("git-init"),
            Stage::InstallDeps => String::from_str("install-deps"),
        }
    }
}

/// The ghost image of a `Plan`.
pub struct PlanView {
    pub program: Seq<char>,
    pub args: Seq<Seq<char>>,
    pub cwd: Seq<char>,
    pub env: Seq<(Seq<char>, Seq<char>)>,
}

/// The fully resolved external command for one (project, stage) pair:
/// program name, arguments, working directory and environment overrides.
#[derive(Debug, Clone)]
pub struct Plan {
    pub program: String,
    pub args: Vec<String>,
    pub cwd: String,
    pub env: Vec<(String, String)>,
}

impl View for Plan {
    type V = PlanView;

    open spec fn view(&self) -> PlanView {
        PlanView {
            program: self.program@,
            args: self.args.deep_view(),
            cwd: self.cwd@,
            env: self.env.deep_view(),
        }
    }
}

/// The project's own subdirectory under the run root.
pub open spec fn spec_subdir(root: Seq<char>, name: Seq<char>) -> Seq<char> {
    root + "/"@ + name
}

/// What `plan` returns: the one defined command for each (project, stage)
/// pair.
///
/// The generate stage always runs through `npm`; for a mobile technology the
/// chosen package manager is passed on through the environment, never as a
/// positional argument. The two later stages run inside the project's own
/// subdirectory, never the run root.
pub open spec fn spec_plan(p: ProjectView, stage: Stage, root: Seq<char>) -> PlanView {
    match stage {
        Stage::Generate => PlanView {
            program: "npm"@,
            args: p.spec_init_args(),
            cwd: root,
            env: if p.tech.spec_is_mobile() {
                seq![("npm_config_user_agent"@, p.package_manager.spec_executable_name())]
            } else {
                Seq::empty()
            },
        },
        Stage::GitInit => PlanView {
            program: "git"@,
            args: seq!["init"@],
            cwd: spec_subdir(root, p.name),
            env: Seq::empty(),
        },
        Stage::InstallDeps => PlanView {
            program: p.package_manager.spec_executable_name(),
            args: seq!["install"@],
            cwd: spec_subdir(root, p.name),
            env: Seq::empty(),
        },
    }
}

fn subdir(root: &str, name: &String) -> (r: String)
    ensures
        r@ == spec_subdir(root@, name@),
{
    let mut r = String::from_str(root);
    r.append("/");
    r.append(name.as_str());
    r
}

/// Computes the external command for one project at one stage. Pure: no side
/// effects, and the result is determined by the arguments alone.
pub fn plan(project: &Project, stage: Stage, run_root: &str) -> (r: Plan)
    requires
        project@.valid(),
    ensures
        r@ == spec_plan(project@, stage, run_root@),
{
    match stage {
        Stage::Generate => {
            let mut env: Vec<(String, String)> = Vec::new();
            if project.tech.is_mobile() {
                env.push(
                    (String::from_str("npm_config_user_agent"), project
                        .package_manager
                        .executable_name()),
                );
            }
            let r = Plan {
                program: String::from_str("npm"),
                args: project.init_command_args(),
                cwd: String::from_str(run_root),
                env,
            };
            assert(r@.env =~= spec_plan(project@, stage, run_root@).env);
            r
        },
        Stage::GitInit => {
            let mut args: Vec<String> = Vec::new();
            args.push(String::from_str("init"));
            let r = Plan {
                program: String::from_str("git"),
                args,
                cwd: subdir(run_root, &project.name),
                env: Vec::new(),
            };
            assert(r@.args =~= spec_plan(project@, stage, run_root@).args);
            assert(r@.env =~= spec_plan(project@, stage, run_root@).env);
            r
        },
        Stage::InstallDeps => {
            let mut args: Vec<String> = Vec::new();
            args.push(String::from_str("install"));
            let r = Plan {
                program: project.package_manager.executable_name(),
                args,
                cwd: subdir(run_root, &project.name),
                env: Vec::new(),
            };
            assert(r@.args =~= spec_plan(project@, stage, run_root@).args);
            assert(r@.env =~= spec_plan(project@, stage, run_root@).env);
            r
        },
    }
}

/// The planner is idempotent: two plans computed for the same project and
/// stage, against the same run root, are identical in every field.
pub proof fn lemma_plan_idempotent(
    p: ProjectView,
    stage: Stage,
    root: Seq<char>,
    r1: PlanView,
    r2: PlanView,
)
    requires
        r1 == spec_plan(p, stage, root),
        r2 == spec_plan(p, stage, root),
    ensures
        r1 == r2,
{
}

} // verus!
