//! The one-shot bootstrapper: a non-interactive variant of the scaffolder
//! that takes every choice from the command line, validates the requested
//! package manager, and scaffolds one project per technology.

use vstd::prelude::*;

use crate::strutil::str_eq;

verus! {

#[derive(Debug, PartialEq, Eq, Hash, Clone, Copy, Structural)]
pub enum PackageManagers {
    Npm,
    Pnpm,
    Yarn,
}

impl PackageManagers {
    /// The name of the executable that drives this package manager.
    pub open spec fn spec_executable_name(self) -> Seq<char> {
        match self {
            PackageManagers::Npm => "npm"@,
            PackageManagers::Pnpm => "pnpm"@,
            PackageManagers::Yarn => "yarn"@,
        }
    }

    pub fn executable_name(&self) -> (r: String)
        ensures
            r@ == self.spec_executable_name(),
    {
        match self {
            PackageManagers::Npm => String::from_str("npm"),
            PackageManagers::Pnpm => String::from_str("pnpm"),
            PackageManagers::Yarn => String::from_str("yarn"),
        }
    }

    /// Checks that this package manager's executable is present on the host.
    /// Whether it is depends on the machine, so the contract only fixes what
    /// each answer looks like.
    pub fn check_if_availabe(&self) -> (r: Result<&Self, String>)
        ensures
            r matches Ok(s) ==> s == self,
            r matches Err(m) ==> m@ == "Package manager isn't available for use!"@,
    {
        if crate::package_managers::executable_available(&self.executable_name()) {
            Result::Ok(self)
        } else {
            Result::Err(String::from_str("Package manager isn't available for use!"))
        }
    }
}

#[derive(Debug, PartialEq, Eq, Clone, Copy, Structural)]
pub enum Techs {
    React,
    ReactNative,
    NodeExpress,
    NodeNest,

    Invalid,
}

impl From<&str> for Techs {
    fn from(value: &str) -> (r: Self)
        ensures
            r == Techs::spec_from_name(value@),
    {
        if str_eq(value, "node") {
            Techs::NodeExpress
        } else if str_eq(value, "react") {
            Techs::React
        } else if str_eq(value, "react-native") {
            Techs::ReactNative
        } else if str_eq(value, "node-nestjs") {
            Techs::NodeNest
        } else {
            Techs::Invalid
        }
    }
}

impl vstd::std_specs::convert::FromSpecImpl<&str> for Techs {
    open spec fn obeys_from_spec() -> bool {
        true
    }

    open spec fn from_spec(value: &str) -> Techs {
        Techs::spec_from_name(value@)
    }
}

impl Techs {
    /// The technology a command-line name stands for; an unknown name is the
    /// `Invalid` placeholder.
    pub open spec fn spec_from_name(value: Seq<char>) -> Techs {
        if value == "node"@ {
            Techs::NodeExpress
        } else if value == "react"@ {
            Techs::React
        } else if value == "react-native"@ {
            Techs::ReactNative
        } else if value == "node-nestjs"@ {
            Techs::NodeNest
        } else {
            Techs::Invalid
        }
    }

    /// The directory-name suffix that marks a project of this technology.
    pub open spec fn spec_suffix(self) -> Seq<char> {
        match self {
            Techs::React => "web"@,
            Techs::ReactNative => "app"@,
            Techs::NodeExpress | Techs::NodeNest => "api"@,
            Techs::Invalid => Seq::empty(),
        }
    }

    /// The directory name of the project scaffolded for this technology:
    /// the run's name with the technology's suffix.
    pub fn name(&self, project: &str) -> (r: String)
        requires
            !(self is Invalid),
        ensures
            r@ == project@ + "-"@ + self.spec_suffix(),
    {
        let suffix = match self {
            Techs::React => "web",
            Techs::ReactNative => "app",
            Techs::NodeExpress | Techs::NodeNest => "api",
            Techs::Invalid => "",
        };
        let mut r = String::from_str(project);
        r.append("-");
        r.append(suffix);
        r
    }

    pub open spec fn spec_is_mobile(self) -> bool {
        self is ReactNative
    }

    pub fn is_mobile(&self) -> (r: bool)
        ensures
            r == self.spec_is_mobile(),
    {
        matches!(self, Techs::ReactNative)
    }

    /// The arguments of this technology's scaffolding invocation for the
    /// given run. Only the directory name and, where the generator takes
    /// one, the package manager's name vary; the rest is fixed per
    /// technology. No invocation is defined yet for `NodeExpress`.
    pub open spec fn spec_create_args(
        self,
        project_prefix: Seq<char>,
        package_manager: Seq<char>,
    ) -> Seq<Seq<char>> {
        let project_name = project_prefix + "-"@ + self.spec_suffix();
        match self {
            Techs::React => seq![
                "create"@,
                "vite@latest"@,
                project_name,
                "--"@,
                "--template"@,
                "react-ts"@,
            ],
            Techs::NodeNest => seq![
                "exec"@,
                "--yes"@,
                "@nestjs/cli"@,
                "new"@,
                project_name,
                "--"@,
                "-p"@,
                package_manager,
            ],
            Techs::ReactNative => seq![
                "create"@,
                "expo-app"@,
                project_name,
                "--"@,
                "--template"@,
                "blank-typescript"@,
            ],
            Techs::NodeExpress | Techs::Invalid => Seq::empty(),
        }
    }

    pub fn create_args(&self, project_prefix: &str, package_manager: String) -> (r: Vec<String>)
        requires
            !(self is Invalid),
            !(self is NodeExpress),
        ensures
            r.deep_view() == self.spec_create_args(project_prefix@, package_manager@),
    {
        let mut args: Vec<String> = Vec::new();

        let project_name = self.name(project_prefix);

        match self {
            Techs::React => {
                args.push(String::from_str("create"));
                args.push(String::from_str("vite@latest"));
                args.push(project_name);
                args.push(String::from_str("--"));
                args.push(String::from_str("--template"));
                args.push(String::from_str("react-ts"));
            },
            Techs::NodeNest => {
                args.push(String::from_str("exec"));
                args.push(String::from_str("--yes"));
                args.push(String::from_str("@nestjs/cli"));
                args.push(String::from_str("new"));
                args.push(project_name);
                args.push(String::from_str("--"));
                args.push(String::from_str("-p"));
                args.push(package_manager);
            },
            Techs::ReactNative => {
                args.push(String::from_str("create"));
                args.push(String::from_str("expo-app"));
                args.push(project_name);
                args.push(String::from_str("--"));
                args.push(String::from_str("--template"));
                args.push(String::from_str("blank-typescript"));
            },
            Techs::NodeExpress | Techs::Invalid => {},
        }
        assert(args.deep_view() =~= self.spec_create_args(project_prefix@, package_manager@));
        args
    }

    /// The package managers a project of this technology can be set up
    /// with, in the order they are offered.
    pub fn get_package_managers(&self) -> (r: Vec<PackageManagers>)
        requires
            !(self is Invalid),
        ensures
            r@ == seq![PackageManagers::Npm, PackageManagers::Yarn, PackageManagers::Pnpm],
    {
        let mut r: Vec<PackageManagers> = Vec::new();
        r.push(PackageManagers::Npm);
        r.push(PackageManagers::Yarn);
        r.push(PackageManagers::Pnpm);
        assert(r@ =~= seq![PackageManagers::Npm, PackageManagers::Yarn, PackageManagers::Pnpm]);
        r
    }
}

/// Every choice the bootstrapper runs on, already collected.
#[derive(Debug)]
pub struct Options {
    pub project_prefix: String,
    pub techs: Vec<Techs>,
    pub package_manager: Option<PackageManagers>,
}

/// The bootstrapper's command-line arguments, as plain values.
#[derive(Debug)]
pub struct Args {
    pub techs: Vec<Techs>,
    pub package_manager: Option<PackageManagers>,
    pub name: String,
}

impl From<Args> for Options {
    fn from(value: Args) -> (r: Self)
        ensures
            r.project_prefix == value.name,
            r.techs == value.techs,
            r.package_manager == value.package_manager,
    {
        Options {
            project_prefix: value.name,
            techs: value.techs,
            package_manager: value.package_manager,
        }
    }
}

impl vstd::std_specs::convert::FromSpecImpl<Args> for Options {
    open spec fn obeys_from_spec() -> bool {
        true
    }

    open spec fn from_spec(value: Args) -> Options {
        Options {
            project_prefix: value.name,
            techs: value.techs,
            package_manager: value.package_manager,
        }
    }
}

/// The package manager the run has asked for, `Npm` when it named none.
pub open spec fn spec_requested_pm(requested: Option<PackageManagers>) -> PackageManagers {
    match requested {
        Option::Some(p) => p,
        Option::None => PackageManagers::Npm,
    }
}

/// The package managers a technology offers.
pub open spec fn spec_offered(t: Techs) -> Seq<PackageManagers> {
    seq![PackageManagers::Npm, PackageManagers::Yarn, PackageManagers::Pnpm]
}

/// Some technology in the run offers `pm` among its package managers.
pub open spec fn spec_pm_selectable(techs: Seq<Techs>, pm: PackageManagers) -> bool {
    exists|i: int| 0 <= i < techs.len() && #[trigger] spec_offered(techs[i]).contains(pm)
}

/// Whether `pm` is among the offered package managers.
fn offers(v: &Vec<PackageManagers>, pm: PackageManagers) -> (r: bool)
    ensures
        r == v@.contains(pm),
{
    let mut j: usize = 0;
    while j < v.len()
        invariant
            j <= v@.len(),
            forall|k: int| 0 <= k < j ==> v@[k] != pm,
        decreases v@.len() - j,
    {
        if v[j] == pm {
            return true;
        }
        j += 1;
    }
    assert(!v@.contains(pm));
    false
}

/// Settles which package manager the run uses: the requested one (or `Npm`
/// by default), provided it is present on the host and offered by some
/// technology in the run. Host presence is the machine's to answer, so the
/// contract fixes each error exactly but cannot promise success.
pub fn select_package_manager(techs: &Vec<Techs>, requested: &Option<PackageManagers>) -> (r:
    Result<PackageManagers, String>)
    requires
        forall|i: int| 0 <= i < techs@.len() ==> !(#[trigger] techs@[i] is Invalid),
    ensures
        r matches Ok(p) ==> p == spec_requested_pm(*requested) && spec_pm_selectable(techs@, p),
        r matches Err(m) ==> m@ == "Package manager isn't available for use!"@ || m@
            == "Invalid package manager!"@,
        (r matches Err(m) && m@ == "Invalid package manager!"@) ==> !spec_pm_selectable(
            techs@,
            spec_requested_pm(*requested),
        ),
        !spec_pm_selectable(techs@, spec_requested_pm(*requested)) ==> r is Err,
{
    let chosen = match requested {
        Option::Some(p) => *p,
        Option::None => PackageManagers::Npm,
    };
    match chosen.check_if_availabe() {
        Result::Err(m) => {
            proof {
                reveal_strlit("Package manager isn't available for use!");
                reveal_strlit("Invalid package manager!");
                assert("Package manager isn't available for use!"@.len() != "Invalid package manager!"@.len());
                assert(m@ != "Invalid package manager!"@);
            }
            return Result::Err(m);
        },
        Result::Ok(_) => {},
    }
    let mut selectable = false;
    let mut i: usize = 0;
    while i < techs.len()
        invariant
            forall|k: int| 0 <= k < techs@.len() ==> !(#[trigger] techs@[k] is Invalid),
            i <= techs@.len(),
            selectable == exists|k: int|
                0 <= k < i && #[trigger] spec_offered(techs@[k]).contains(chosen),
        decreases techs@.len() - i,
    {
        let offered = techs[i].get_package_managers();
        if offers(&offered, chosen) {
            selectable = true;
        }
        proof {
            assert(offered@ == spec_offered(techs@[i as int]));
        }
        i += 1;
    }
    if selectable {
        Result::Ok(chosen)
    } else {
        Result::Err(String::from_str("Invalid package manager!"))
    }
}

} // verus!
