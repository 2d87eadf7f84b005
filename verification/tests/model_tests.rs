use seedrs::bootstrap;
use seedrs::options::Options;
use seedrs::package_managers::PackageManager;
use seedrs::project_kind::ProjectKind;
use seedrs::prompts;
use seedrs::strutil;
use seedrs::techs::Tech;

#[test]
fn package_manager_executable_names() {
    assert_eq!(PackageManager::Npm.executable_name(), "npm");
    assert_eq!(PackageManager::Pnpm.executable_name(), "pnpm");
    assert_eq!(PackageManager::Yarn.executable_name(), "yarn");
    assert_eq!(PackageManager::default(), PackageManager::Npm);
}

#[test]
fn tech_suffixes_and_flags() {
    assert_eq!(Tech::React.suffix(), "web");
    assert_eq!(Tech::ReactNative.suffix(), "app");
    assert_eq!(Tech::NodeNest.suffix(), "api");
    assert!(Tech::ReactNative.is_mobile());
    assert!(!Tech::React.is_mobile());
    assert!(!Tech::NodeNest.is_mobile());
    assert_eq!(Tech::values(), vec![Tech::React, Tech::NodeNest, Tech::ReactNative]);
    assert_eq!(
        Tech::React.get_package_managers(),
        vec![PackageManager::Npm, PackageManager::Yarn, PackageManager::Pnpm]
    );
}

#[test]
fn tech_from_command_line_names() {
    assert_eq!(Tech::from("react"), Tech::React);
    assert_eq!(Tech::from("react-native"), Tech::ReactNative);
    assert_eq!(Tech::from("rn"), Tech::ReactNative);
    assert_eq!(Tech::from("nestjs"), Tech::NodeNest);
    assert_eq!(Tech::from("node-nest"), Tech::NodeNest);
    assert_eq!(Tech::from("node-nestjs"), Tech::NodeNest);
    assert_eq!(Tech::from("cobol"), Tech::Invalid);
    assert_eq!(Tech::default(), Tech::Invalid);
}

#[test]
fn project_kind_values_suffixes_and_techs() {
    assert_eq!(
        ProjectKind::values(),
        vec![ProjectKind::Web, ProjectKind::Mobile, ProjectKind::Api]
    );
    assert_eq!(ProjectKind::Web.get_suffix(), "web");
    assert_eq!(ProjectKind::Mobile.get_suffix(), "app");
    assert_eq!(ProjectKind::Api.get_suffix(), "server");
    assert_eq!(ProjectKind::Web.get_techs(), vec![Tech::React]);
    assert_eq!(ProjectKind::Mobile.get_techs(), vec![Tech::ReactNative]);
    assert_eq!(ProjectKind::Api.get_techs(), vec![Tech::NodeNest]);
    assert_eq!(ProjectKind::Web.display_name(), "web");
    assert_eq!(ProjectKind::Mobile.display_name(), "app");
    assert_eq!(ProjectKind::Api.display_name(), "api");
}

#[test]
fn seedrs_args_become_options() {
    let args = seedrs::args::Args {
        techs: None,
        package_manager: Some(PackageManager::Yarn),
        name: Some(String::from("demo")),
    };
    let opts = Options::from(args);
    assert!(opts.techs.is_empty());
    assert_eq!(opts.package_manager, Some(PackageManager::Yarn));
    assert_eq!(opts.project_prefix, Some(String::from("demo")));
}

#[test]
fn bootstrapper_tech_names_and_args() {
    assert_eq!(bootstrap::Techs::from("node"), bootstrap::Techs::NodeExpress);
    assert_eq!(bootstrap::Techs::from("react"), bootstrap::Techs::React);
    assert_eq!(bootstrap::Techs::from("react-native"), bootstrap::Techs::ReactNative);
    assert_eq!(bootstrap::Techs::from("node-nestjs"), bootstrap::Techs::NodeNest);
    assert_eq!(bootstrap::Techs::from("other"), bootstrap::Techs::Invalid);

    assert_eq!(bootstrap::Techs::React.name("demo"), "demo-web");
    assert_eq!(bootstrap::Techs::ReactNative.name("demo"), "demo-app");
    assert_eq!(bootstrap::Techs::NodeExpress.name("demo"), "demo-api");
    assert_eq!(bootstrap::Techs::NodeNest.name("demo"), "demo-api");
    assert!(bootstrap::Techs::ReactNative.is_mobile());
    assert!(!bootstrap::Techs::NodeNest.is_mobile());

    assert_eq!(
        bootstrap::Techs::React.create_args("demo", String::from("npm")),
        vec!["create", "vite@latest", "demo-web", "--", "--template", "react-ts"]
    );
    assert_eq!(
        bootstrap::Techs::NodeNest.create_args("demo", String::from("yarn")),
        vec!["exec", "--yes", "@nestjs/cli", "new", "demo-api", "--", "-p", "yarn"]
    );
    assert_eq!(
        bootstrap::Techs::ReactNative.create_args("demo", String::from("pnpm")),
        vec!["create", "expo-app", "demo-app", "--", "--template", "blank-typescript"]
    );
}

#[test]
fn bootstrapper_package_managers() {
    assert_eq!(bootstrap::PackageManagers::Npm.executable_name(), "npm");
    assert_eq!(bootstrap::PackageManagers::Pnpm.executable_name(), "pnpm");
    assert_eq!(bootstrap::PackageManagers::Yarn.executable_name(), "yarn");
    assert_eq!(
        bootstrap::Techs::React.get_package_managers(),
        vec![
            bootstrap::PackageManagers::Npm,
            bootstrap::PackageManagers::Yarn,
            bootstrap::PackageManagers::Pnpm,
        ]
    );
}

#[test]
fn bootstrapper_args_become_options() {
    let args = bootstrap::Args {
        techs: vec![bootstrap::Techs::React],
        package_manager: Some(bootstrap::PackageManagers::Pnpm),
        name: String::from("demo"),
    };
    let opts = bootstrap::Options::from(args);
    assert_eq!(opts.project_prefix, "demo");
    assert_eq!(opts.techs, vec![bootstrap::Techs::React]);
    assert_eq!(opts.package_manager, Some(bootstrap::PackageManagers::Pnpm));
}

#[test]
fn a_package_manager_with_no_tech_to_use_it_is_rejected() {
    // with no technologies in the run, no package manager is selectable,
    // so the answer must be an error whatever the host has installed
    let techs: Vec<bootstrap::Techs> = vec![];
    let r = bootstrap::select_package_manager(&techs, &Some(bootstrap::PackageManagers::Npm));
    let msg = r.unwrap_err();
    assert!(
        msg == "Package manager isn't available for use!" || msg == "Invalid package manager!"
    );
}

#[test]
fn prompt_defaults_and_answers() {
    assert_eq!(prompts::resolve_project_name(""), "my-project");
    assert_eq!(prompts::resolve_project_name("shop"), "shop");

    assert_eq!(prompts::default_component_name("demo", &ProjectKind::Web, 1), "demo-web");
    assert_eq!(prompts::default_component_name("demo", &ProjectKind::Web, 2), "demo-web-2");
    assert_eq!(prompts::default_component_name("demo", &ProjectKind::Api, 12), "demo-server-12");

    assert_eq!(
        prompts::resolve_component_name("", String::from("demo-web")),
        "demo-web"
    );
    assert_eq!(
        prompts::resolve_component_name("store", String::from("demo-web")),
        "store"
    );

    assert!(prompts::affirmed(""));
    assert!(prompts::affirmed("yes"));
    assert!(prompts::affirmed("nope"));
    assert!(!prompts::affirmed("no"));

    assert_eq!(prompts::selection_index(1, 3), Some(0));
    assert_eq!(prompts::selection_index(3, 3), Some(2));
    assert_eq!(prompts::selection_index(0, 3), None);
    assert_eq!(prompts::selection_index(4, 3), None);
    assert_eq!(prompts::selection_index(1, 0), None);
}

#[test]
fn string_utilities() {
    assert!(strutil::str_eq("abc", "abc"));
    assert!(!strutil::str_eq("abc", "abd"));
    assert!(!strutil::str_eq("abc", "abcd"));
    assert!(strutil::str_eq("", ""));

    assert!(strutil::str_contains("https://dev.azure.com/a/b", "azure"));
    assert!(!strutil::str_contains("https://github.com/a/b.git", "azure"));
    assert!(strutil::str_contains("anything", ""));
    assert!(!strutil::str_contains("ab", "abc"));
    assert!(strutil::str_contains("abc", "abc"));

    assert_eq!(strutil::u32_dec(0), "0");
    assert_eq!(strutil::u32_dec(7), "7");
    assert_eq!(strutil::u32_dec(105), "105");
    assert_eq!(strutil::i32_dec(0), "0");
    assert_eq!(strutil::i32_dec(42), "42");
    assert_eq!(strutil::i32_dec(-42), "-42");
    assert_eq!(strutil::i32_dec(i32::MIN), "-2147483648");
}
