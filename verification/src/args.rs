//! The interactive scaffolder's command-line arguments, as plain values.

use vstd::prelude::*;

use crate::options::Options;
use crate::package_managers::PackageManager;
use crate::techs::Tech;

verus! {

#[derive(Debug)]
pub struct Args {
    pub techs: Option<Vec<Tech>>,
    pub package_manager: Option<PackageManager>,
    pub name: Option<String>,
}

impl From<Args> for Options {
    fn from(value: Args) -> (r: Self)
        ensures
            value.techs matches Some(t) ==> r.techs == t,
            value.techs is None ==> r.techs@.len() == 0,
            r.package_manager == value.package_manager,
            r.project_prefix == value.name,
    {
        let techs: Vec<Tech> = match value.techs {
            Option::Some(t) => t,
            Option::None => Vec::new(),
        };
        Options { techs, project_prefix: value.name, package_manager: value.package_manager }
    }
}

impl vstd::std_specs::convert::FromSpecImpl<Args> for Options {
    open spec fn obeys_from_spec() -> bool {
        false
    }

    open spec fn from_spec(value: Args) -> Options {
        arbitrary()
    }
}

} // verus!
