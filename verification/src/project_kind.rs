//! The broad kinds of sub-project a run can ask for, used by the prompts to
//! group technologies.

use vstd::prelude::*;

use crate::techs::Tech;

verus! {

#[derive(Debug, Clone, PartialEq, Eq, Structural)]
pub enum ProjectKind {
    Web,
    Mobile,
    Api,
}

impl ProjectKind {
    /// The kinds, in the order they are asked about.
    pub fn values() -> (r: Vec<Self>)
        ensures
            r@ == seq![ProjectKind::Web, ProjectKind::Mobile, ProjectKind::Api],
    {
        let mut r: Vec<ProjectKind> = Vec::new();
        r.push(ProjectKind::Web);
        r.push(ProjectKind::Mobile);
        r.push(ProjectKind::Api);
        assert(r@ =~= seq![ProjectKind::Web, ProjectKind::Mobile, ProjectKind::Api]);
        r
    }

    /// The directory-name suffix suggested for a project of this kind.
    pub open spec fn spec_suffix(self) -> Seq<char> {
        match self {
            ProjectKind::Web => "web"@,
            ProjectKind::Mobile => "app"@,
            ProjectKind::Api => "server"@,
        }
    }

    pub fn get_suffix(&self) -> (r: String)
        ensures
            r@ == self.spec_suffix(),
    {
        match self {
            ProjectKind::Web => String::from_str("web"),
            ProjectKind::Mobile => String::from_str("app"),
            ProjectKind::Api => String::from_str("server"),
        }
    }

    /// The technologies offered for this kind of project.
    pub open spec fn spec_techs(self) -> Seq<Tech> {
        match self {
            ProjectKind::Web => seq![Tech::React],
            ProjectKind::Mobile => seq![Tech::ReactNative],
            ProjectKind::Api => seq![Tech::NodeNest],
        }
    }

    pub fn get_techs(&self) -> (r: Vec<Tech>)
        ensures
            r@ == self.spec_techs(),
    {
        let mut r: Vec<Tech> = Vec::new();
        match self {
            ProjectKind::Web => r.push(Tech::React),
            ProjectKind::Mobile => r.push(Tech::ReactNative),
            ProjectKind::Api => r.push(Tech::NodeNest),
        }
        assert(r@ =~= self.spec_techs());
        r
    }

    /// The short name used when this kind is mentioned in a prompt.
    pub open spec fn spec_display_name(self) -> Seq<char> {
        match self {
            ProjectKind::Web => "web"@,
            ProjectKind::Mobile => "app"@,
            ProjectKind::Api => "api"@,
        }
    }

    pub fn display_name(&self) -> (r: String)
        ensures
            r@ == self.spec_display_name(),
    {
        match self {
            ProjectKind::Web => String::from_str("web"),
            ProjectKind::Mobile => String::from_str("app"),
            ProjectKind::Api => String::from_str("api"),
        }
    }
}

} // verus!
