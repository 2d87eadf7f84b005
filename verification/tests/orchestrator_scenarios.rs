use seedrs::orchestrator::{FatalSetupError, Orchestrator, Phase};
use seedrs::outcome::{outcome_of, ProcessResult, StageOutcome};
use seedrs::package_managers::PackageManager;
use seedrs::planner::Stage;
use seedrs::projects::Project;
use seedrs::techs::Tech;

fn web_spec(name: &str) -> Project {
    Project::new(name.to_string(), Tech::React, PackageManager::Npm, true, true)
}

#[test]
fn scenario_one_spec_every_stage_succeeds() {
    let specs = vec![web_spec("x-web")];
    let mut o = Orchestrator::new(specs, String::from("run-root"));
    assert_eq!(o.root_dir_path(), "run-root");
    assert!(o.on_root_created(Ok(())).is_ok());

    let plans = o.generate_plans();
    assert_eq!(plans.len(), 1);
    assert_eq!(plans[0].program, "npm");
    assert_eq!(
        plans[0].args,
        vec!["create", "vite@latest", "x-web", "--", "--template", "react-ts"]
    );
    assert_eq!(plans[0].cwd, "run-root");
    assert!(plans[0].env.is_empty());

    o.record_generate(&vec![ProcessResult::Exited(0)]);
    assert_eq!(o.generate_outcomes[0], StageOutcome::Succeeded);

    let git_plans = o.stage_plans(Stage::GitInit);
    assert_eq!(git_plans.len(), 1);
    assert_eq!(git_plans[0].0, 0);
    assert_eq!(git_plans[0].1.program, "git");
    assert_eq!(git_plans[0].1.args, vec!["init"]);
    assert_eq!(git_plans[0].1.cwd, "run-root/x-web");

    let deps_plans = o.stage_plans(Stage::InstallDeps);
    assert_eq!(deps_plans.len(), 1);
    assert_eq!(deps_plans[0].1.program, "npm");
    assert_eq!(deps_plans[0].1.args, vec!["install"]);
    assert_eq!(deps_plans[0].1.cwd, "run-root/x-web");

    o.record_dispatch(
        &vec![(0, ProcessResult::Exited(0))],
        &vec![(0, ProcessResult::Exited(0))],
    );
    assert_eq!(o.git_init_outcomes[0], Some(StageOutcome::Succeeded));
    assert_eq!(o.install_deps_outcomes[0], Some(StageOutcome::Succeeded));

    let lines = o.report_lines();
    assert_eq!(
        lines,
        vec![
            "x-web: generate: succeeded",
            "x-web: git-init: succeeded",
            "x-web: install-deps: succeeded",
        ]
    );
    o.finish();
    assert_eq!(o.phase, Phase::Done);
}

#[test]
fn scenario_generate_exits_nonzero_skips_later_stages() {
    let specs = vec![web_spec("x-web")];
    let mut o = Orchestrator::new(specs, String::from("run-root"));
    assert!(o.on_root_created(Ok(())).is_ok());
    let _ = o.generate_plans();

    o.record_generate(&vec![ProcessResult::Exited(1)]);
    assert_eq!(
        o.generate_outcomes[0],
        StageOutcome::Failed(String::from("exited with code 1"))
    );

    // nothing is planned, hence nothing spawned, for the failed project
    assert!(o.stage_plans(Stage::GitInit).is_empty());
    assert!(o.stage_plans(Stage::InstallDeps).is_empty());

    o.record_dispatch(&vec![], &vec![]);
    let skip = Some(StageOutcome::Skipped(String::from("generation failed")));
    assert_eq!(o.git_init_outcomes[0], skip);
    assert_eq!(o.install_deps_outcomes[0], skip);

    let lines = o.report_lines();
    assert_eq!(
        lines,
        vec![
            "x-web: generate: failed: exited with code 1",
            "x-web: git-init: skipped: generation failed",
            "x-web: install-deps: skipped: generation failed",
        ]
    );
}

#[test]
fn scenario_sibling_failure_is_isolated() {
    let specs = vec![web_spec("good-web"), web_spec("bad-web")];
    let mut o = Orchestrator::new(specs, String::from("run-root"));
    assert!(o.on_root_created(Ok(())).is_ok());
    let plans = o.generate_plans();
    assert_eq!(plans.len(), 2);

    o.record_generate(&vec![
        ProcessResult::Exited(0),
        ProcessResult::SpawnFailed(String::from("No such file or directory")),
    ]);
    assert_eq!(o.generate_outcomes[0], StageOutcome::Succeeded);
    assert_eq!(
        o.generate_outcomes[1],
        StageOutcome::Failed(String::from("No such file or directory"))
    );

    // the successful project still proceeds through both later stages
    let git_plans = o.stage_plans(Stage::GitInit);
    let deps_plans = o.stage_plans(Stage::InstallDeps);
    assert_eq!(git_plans.len(), 1);
    assert_eq!(git_plans[0].0, 0);
    assert_eq!(deps_plans.len(), 1);
    assert_eq!(deps_plans[0].0, 0);

    o.record_dispatch(
        &vec![(0, ProcessResult::Exited(0))],
        &vec![(0, ProcessResult::Exited(0))],
    );
    assert_eq!(o.git_init_outcomes[0], Some(StageOutcome::Succeeded));
    assert_eq!(o.install_deps_outcomes[0], Some(StageOutcome::Succeeded));
    let skip = Some(StageOutcome::Skipped(String::from("generation failed")));
    assert_eq!(o.git_init_outcomes[1], skip);
    assert_eq!(o.install_deps_outcomes[1], skip);
}

#[test]
fn scenario_existing_run_root_is_fatal() {
    let specs = vec![web_spec("x-web")];
    let mut o = Orchestrator::new(specs, String::from("run-root"));
    let r = o.on_root_created(Err(String::from("File exists")));
    assert_eq!(
        r,
        Err(FatalSetupError {
            reason: String::from("File exists")
        })
    );
    // the run is over before anything could be spawned for any spec
    assert_eq!(o.phase, Phase::Done);
    assert!(o.generate_outcomes.is_empty());
}

#[test]
fn flags_route_projects_into_the_right_worklists() {
    let specs = vec![
        Project::new("a".to_string(), Tech::React, PackageManager::Npm, true, false),
        Project::new("b".to_string(), Tech::NodeNest, PackageManager::Pnpm, false, true),
        Project::new("c".to_string(), Tech::React, PackageManager::Yarn, false, false),
    ];
    let mut o = Orchestrator::new(specs, String::from("root"));
    assert!(o.on_root_created(Ok(())).is_ok());
    let _ = o.generate_plans();
    o.record_generate(&vec![
        ProcessResult::Exited(0),
        ProcessResult::Exited(0),
        ProcessResult::Exited(0),
    ]);

    let git_plans = o.stage_plans(Stage::GitInit);
    assert_eq!(git_plans.len(), 1);
    assert_eq!(git_plans[0].0, 0);

    let deps_plans = o.stage_plans(Stage::InstallDeps);
    assert_eq!(deps_plans.len(), 1);
    assert_eq!(deps_plans[0].0, 1);
    assert_eq!(deps_plans[0].1.program, "pnpm");

    o.record_dispatch(
        &vec![(0, ProcessResult::Exited(0))],
        &vec![(1, ProcessResult::Exited(128))],
    );
    assert_eq!(o.git_init_outcomes[0], Some(StageOutcome::Succeeded));
    assert_eq!(o.git_init_outcomes[1], None);
    assert_eq!(o.git_init_outcomes[2], None);
    assert_eq!(o.install_deps_outcomes[0], None);
    assert_eq!(
        o.install_deps_outcomes[1],
        Some(StageOutcome::Failed(String::from("exited with code 128")))
    );
    assert_eq!(o.install_deps_outcomes[2], None);

    let lines = o.report_lines();
    assert_eq!(
        lines,
        vec![
            "a: generate: succeeded",
            "a: git-init: succeeded",
            "b: generate: succeeded",
            "b: install-deps: failed: exited with code 128",
            "c: generate: succeeded",
        ]
    );
}

#[test]
fn outcome_classification_covers_every_ending() {
    assert_eq!(outcome_of(&ProcessResult::Exited(0)), StageOutcome::Succeeded);
    assert_eq!(
        outcome_of(&ProcessResult::Exited(1)),
        StageOutcome::Failed(String::from("exited with code 1"))
    );
    assert_eq!(
        outcome_of(&ProcessResult::Exited(-7)),
        StageOutcome::Failed(String::from("exited with code -7"))
    );
    assert_eq!(
        outcome_of(&ProcessResult::Signaled),
        StageOutcome::Failed(String::from("terminated without exit code"))
    );
    assert_eq!(
        outcome_of(&ProcessResult::SpawnFailed(String::from("permission denied"))),
        StageOutcome::Failed(String::from("permission denied"))
    );
}
