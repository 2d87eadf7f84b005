use seedrs::package_managers::PackageManager;
use seedrs::planner::{plan, Stage};
use seedrs::projects::Project;
use seedrs::techs::Tech;

fn mobile_spec() -> Project {
    Project::new(
        "trip-app".to_string(),
        Tech::ReactNative,
        PackageManager::Yarn,
        true,
        true,
    )
}

#[test]
fn planning_twice_yields_identical_plans() {
    let spec = mobile_spec();
    for stage in [Stage::Generate, Stage::GitInit, Stage::InstallDeps] {
        let a = plan(&spec, stage, "root");
        let b = plan(&spec, stage, "root");
        assert_eq!(a.program, b.program);
        assert_eq!(a.args, b.args);
        assert_eq!(a.cwd, b.cwd);
        assert_eq!(a.env, b.env);
    }
}

#[test]
fn generate_plan_for_a_mobile_tech_passes_the_package_manager_in_the_environment() {
    let p = plan(&mobile_spec(), Stage::Generate, "root");
    assert_eq!(p.program, "npm");
    assert_eq!(
        p.args,
        vec![
            "create",
            "expo-app",
            "trip-app",
            "--",
            "--no-install",
            "--template",
            "blank-typescript",
        ]
    );
    assert_eq!(p.cwd, "root");
    assert_eq!(
        p.env,
        vec![(String::from("npm_config_user_agent"), String::from("yarn"))]
    );
    // the package manager's name never shows up as a positional argument
    assert!(!p.args.contains(&String::from("yarn")));
}

#[test]
fn generate_plan_for_a_nest_api_passes_the_package_manager_as_an_argument() {
    let spec = Project::new(
        "shop-api".to_string(),
        Tech::NodeNest,
        PackageManager::Pnpm,
        false,
        false,
    );
    let p = plan(&spec, Stage::Generate, "root");
    assert_eq!(p.program, "npm");
    assert_eq!(
        p.args,
        vec![
            "exec",
            "--yes",
            "@nestjs/cli",
            "new",
            "shop-api",
            "--",
            "--skip-install",
            "-p",
            "pnpm",
        ]
    );
    assert!(p.env.is_empty());
}

#[test]
fn later_stage_plans_run_in_the_project_subdirectory() {
    let spec = mobile_spec();
    let git = plan(&spec, Stage::GitInit, "root");
    assert_eq!(git.program, "git");
    assert_eq!(git.args, vec!["init"]);
    assert_eq!(git.cwd, "root/trip-app");
    assert!(git.env.is_empty());

    let deps = plan(&spec, Stage::InstallDeps, "root");
    assert_eq!(deps.program, "yarn");
    assert_eq!(deps.args, vec!["install"]);
    assert_eq!(deps.cwd, "root/trip-app");
    assert!(deps.env.is_empty());
}

#[test]
fn init_command_args_match_the_technology_template() {
    let spec = Project::new(
        "site".to_string(),
        Tech::React,
        PackageManager::Npm,
        true,
        true,
    );
    assert_eq!(
        spec.init_command_args(),
        vec!["create", "vite@latest", "site", "--", "--template", "react-ts"]
    );
}
