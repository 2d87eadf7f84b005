//! The immutable description of one project to scaffold, and the argument
//! list of its generator invocation.

use vstd::prelude::*;

use crate::package_managers::PackageManager;
use crate::techs::Tech;

verus! {

/// The ghost image of a `Project`: its fields with strings as `Seq<char>`.
pub struct ProjectView {
    pub name: Seq<char>,
    pub tech: Tech,
    pub package_manager: PackageManager,
    pub init_git: bool,
    pub should_install: bool,
    pub template: Option<Seq<char>>,
}

/// The immutable description of one project to scaffold: where it goes,
/// what generates it, and which of the later stages its flags ask for.
#[derive(Debug, Clone)]
pub struct Project {
    pub name: String,
    pub tech: Tech,
    pub package_manager: PackageManager,
    pub init_git: bool,
    pub should_install: bool,
    pub template: Option<String>,
}

impl View for Project {
    type V = ProjectView;

    open spec fn view(&self) -> ProjectView {
        ProjectView {
            name: self.name@,
            tech: self.tech,
            package_manager: self.package_manager,
            init_git: self.init_git,
            should_install: self.should_install,
            template: match self.template {
                Option::Some(t) => Option::Some(t@),
                Option::None => Option::None,
            },
        }
    }
}

impl ProjectView {
    /// A project the pipeline will accept: it has somewhere to be created and
    /// a technology with a defined generator invocation.
    pub open spec fn valid(self) -> bool {
        self.name.len() > 0 && !(self.tech is Invalid)
    }

    /// The arguments of the generator invocation for this project.
    pub open spec fn spec_init_args(self) -> Seq<Seq<char>> {
        match self.tech {
            Tech::React => seq![
                "create"@,
                "vite@latest"@,
                self.name,
                "--"@,
                "--template"@,
                "react-ts"@,
            ],
            Tech::NodeNest => seq![
                "exec"@,
                "--yes"@,
                "@nestjs/cli"@,
                "new"@,
                self.name,
                "--"@,
                "--skip-install"@,
                "-p"@,
                self.package_manager.spec_executable_name(),
            ],
            Tech::ReactNative => seq![
                "create"@,
                "expo-app"@,
                self.name,
                "--"@,
                "--no-install"@,
                "--template"@,
                "blank-typescript"@,
            ],
            Tech::Invalid => Seq::empty(),
        }
    }
}

impl Project {
    pub fn new(
        name: String,
        tech: Tech,
        package_manager: PackageManager,
        init_git: bool,
        should_install: bool,
    ) -> (r: Self)
        ensures
            r@ == (ProjectView {
                name: name@,
                tech,
                package_manager,
                init_git,
                should_install,
                template: Option::None,
            }),
    {
        Project { name, tech, package_manager, init_git, should_install, template: Option::None }
    }

    /// The arguments handed to the generator tool for this project.
    pub fn init_command_args(&self) -> (r: Vec<String>)
        requires
            !(self.tech is Invalid),
        ensures
            r.deep_view() == self@.spec_init_args(),
    {
        let mut args: Vec<String> = Vec::new();

        match self.tech {
            Tech::React => {
                args.push(String::from_str("create"));
                args.push(String::from_str("vite@latest"));
                args.push(self.name.clone());
                args.push(String::from_str("--"));
                args.push(String::from_str("--template"));
                args.push(String::from_str("react-ts"));
            },
            Tech::NodeNest => {
                args.push(String::from_str("exec"));
                args.push(String::from_str("--yes"));
                args.push(String::from_str("@nestjs/cli"));
                args.push(String::from_str("new"));
                args.push(self.name.clone());
                args.push(String::from_str("--"));
                args.push(String::from_str("--skip-install"));
                args.push(String::from_str("-p"));
                args.push(self.package_manager.executable_name());
            },
            Tech::ReactNative => {
                args.push(String::from_str("create"));
                args.push(String::from_str("expo-app"));
                args.push(self.name.clone());
                args.push(String::from_str("--"));
                args.push(String::from_str("--no-install"));
                args.push(String::from_str("--template"));
                args.push(String::from_str("blank-typescript"));
            },
            Tech::Invalid => {},
        }
        assert(args.deep_view() =~= self@.spec_init_args());
        args
    }
}

} // verus!
