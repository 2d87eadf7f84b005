//! The technology templates a project can be scaffolded from.

use vstd::prelude::*;

use crate::package_managers::PackageManager;

verus! {

#[derive(Debug, Clone, PartialEq, Eq, Structural)]
pub enum Tech {
    React,
    ReactNative,
    NodeNest,

    Invalid,
}

impl Default for Tech {
    fn default() -> (r: Self)
        ensures
            r == Tech::Invalid,
    {
        Tech::Invalid
    }
}

impl From<&str> for Tech {
    fn from(value: &str) -> (r: Self)
        ensures
            r == Tech::spec_from_name(value@),
    {
        if crate::strutil::str_eq(value, "react") {
            Tech::React
        } else if crate::strutil::str_eq(value, "react-native") || crate::strutil::str_eq(
            value,
            "rn",
        ) {
            Tech::ReactNative
        } else if crate::strutil::str_eq(value, "nestjs") || crate::strutil::str_eq(
            value,
            "node-nest",
        ) || crate::strutil::str_eq(value, "node-nestjs") {
            Tech::NodeNest
        } else {
            Tech::Invalid
        }
    }
}

impl vstd::std_specs::convert::FromSpecImpl<&str> for Tech {
    open spec fn obeys_from_spec() -> bool {
        true
    }

    open spec fn from_spec(value: &str) -> Tech {
        Tech::spec_from_name(value@)
    }
}

impl Tech {
    /// The technology a command-line name stands for; an unknown name is the
    /// `Invalid` placeholder.
    pub open spec fn spec_from_name(value: Seq<char>) -> Tech {
        if value == "react"@ {
            Tech::React
        } else if value == "react-native"@ || value == "rn"@ {
            Tech::ReactNative
        } else if value == "nestjs"@ || value == "node-nest"@ || value == "node-nestjs"@ {
            Tech::NodeNest
        } else {
            Tech::Invalid
        }
    }

    /// The directory-name suffix that marks a project of this technology.
    pub open spec fn spec_suffix(self) -> Seq<char> {
        match self {
            Tech::React => "web"@,
            Tech::ReactNative => "app"@,
            Tech::NodeNest => "api"@,
            Tech::Invalid => Seq::empty(),
        }
    }

    pub fn suffix(&self) -> (r: String)
        requires
            !(self is Invalid),
        ensures
            r@ == self.spec_suffix(),
    {
        match self {
            Tech::React => String::from_str("web"),
            Tech::ReactNative => String::from_str("app"),
            Tech::NodeNest => String::from_str("api"),
            Tech::Invalid => String::new(),
        }
    }

    /// The selectable technologies, in the order they are offered.
    pub fn values() -> (r: Vec<Self>)
        ensures
            r@ == seq![Tech::React, Tech::NodeNest, Tech::ReactNative],
    {
        let mut r: Vec<Tech> = Vec::new();
        r.push(Tech::React);
        r.push(Tech::NodeNest);
        r.push(Tech::ReactNative);
        assert(r@ =~= seq![Tech::React, Tech::NodeNest, Tech::ReactNative]);
        r
    }

    pub open spec fn spec_is_mobile(self) -> bool {
        self is ReactNative
    }

    pub fn is_mobile(&self) -> (r: bool)
        ensures
            r == self.spec_is_mobile(),
    {
        matches!(self, Tech::ReactNative)
    }

    /// Every supported technology accepts the same three package managers,
    /// offered in this order.
    pub fn get_package_managers(&self) -> (r: Vec<PackageManager>)
        requires
            !(self is Invalid),
        ensures
            r@ == seq![PackageManager::Npm, PackageManager::Yarn, PackageManager::Pnpm],
    {
        let mut r: Vec<PackageManager> = Vec::new();
        r.push(PackageManager::Npm);
        r.push(PackageManager::Yarn);
        r.push(PackageManager::Pnpm);
        assert(r@ =~= seq![PackageManager::Npm, PackageManager::Yarn, PackageManager::Pnpm]);
        r
    }
}

} // verus!
