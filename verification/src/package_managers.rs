//! The package managers a project can be set up with, and the check that the
//! chosen one is present on the host.

use vstd::prelude::*;

verus! {

#[derive(Debug, PartialEq, Eq, Hash, Clone, Structural)]
pub enum PackageManager {
    Npm,
    Pnpm,
    Yarn,
}

impl Default for PackageManager {
    fn default() -> (r: Self)
        ensures
            r == PackageManager::Npm,
    {
        PackageManager::Npm
    }
}

impl PackageManager {
    /// The name of the executable that drives this package manager.
    pub open spec fn spec_executable_name(self) -> Seq<char> {
        match self {
            PackageManager::Npm => "npm"@,
            PackageManager::Pnpm => "pnpm"@,
            PackageManager::Yarn => "yarn"@,
        }
    }

    pub fn executable_name(&self) -> (r: String)
        ensures
            r@ == self.spec_executable_name(),
    {
        match self {
            PackageManager::Npm => String::from_str("npm"),
            PackageManager::Pnpm => String::from_str("pnpm"),
            PackageManager::Yarn => String::from_str("yarn"),
        }
    }

    /// Checks that this package manager's executable is present on the host.
    /// Whether it is depends on the machine, so the contract only fixes what
    /// each answer looks like.
    pub fn check_if_availabe(&self) -> (r: Result<&Self, String>)
        ensures
            r matches Ok(s) ==> s == self,
            r matches Err(m) ==> m@ == "Package manager isn't available for use!"@,
    {
        if executable_available(&self.executable_name()) {
            Result::Ok(self)
        } else {
            Result::Err(String::from_str("Package manager isn't available for use!"))
        }
    }
}

/// Relies on which::which: it walks the host's PATH looking for an executable
/// file of the given name. What it finds depends on the machine and the
/// environment, so nothing is promised of the answer.
#[verifier::external_body]
pub(crate) fn executable_available(name: &String) -> bool {
    which::which(name.as_str()).is_ok()
}

} // verus!
