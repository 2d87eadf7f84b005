//! Every choice the interactive scaffolder can be started with.

use vstd::prelude::*;

use crate::package_managers::PackageManager;
use crate::techs::Tech;

verus! {

#[derive(Debug)]
pub struct Options {
    pub techs: Vec<Tech>,
    pub package_manager: Option<PackageManager>,
    pub project_prefix: Option<String>,
}

} // verus!
