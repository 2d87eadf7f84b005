//! The decisions behind the interactive prompts: default names, how an
//! answer is resolved against its default, and how a menu choice is
//! validated. Reading the answers is the surrounding shell's job; these
//! functions take the already-trimmed text.

use vstd::prelude::*;

use crate::project_kind::ProjectKind;
use crate::strutil::{spec_udec, str_eq, u32_dec};

verus! {

/// The run name used when the user gives none.
pub open spec fn spec_fallback_project_name() -> Seq<char> {
    "my-project"@
}

/// Resolves the run-naming answer: an empty answer means the default name.
pub fn resolve_project_name(trimmed: &str) -> (r: String)
    ensures
        trimmed@.len() == 0 ==> r@ == spec_fallback_project_name(),
        trimmed@.len() > 0 ==> r@ == trimmed@,
{
    if trimmed.is_empty() {
        String::from_str("my-project")
    } else {
        String::from_str(trimmed)
    }
}

/// The name suggested for the `order`-th project of a kind: the run prefix,
/// the kind's suffix, and — from the second project of a kind on — its
/// ordinal.
pub open spec fn spec_default_component_name(
    prefix: Seq<char>,
    kind: ProjectKind,
    order: int,
) -> Seq<char> {
    if order == 1 {
        prefix + "-"@ + kind.spec_suffix()
    } else {
        prefix + "-"@ + kind.spec_suffix() + "-"@ + spec_udec(order as nat)
    }
}

pub fn default_component_name(prefix: &str, kind: &ProjectKind, order: u32) -> (r: String)
    requires
        order >= 1,
    ensures
        r@ == spec_default_component_name(prefix@, *kind, order as int),
{
    let mut r = String::from_str(prefix);
    r.append("-");
    r.append(kind.get_suffix().as_str());
    if order != 1 {
        r.append("-");
        r.append(u32_dec(order).as_str());
    }
    r
}

/// Resolves a project-naming answer: an empty answer means the suggested
/// default.
pub fn resolve_component_name(trimmed: &str, default_name: String) -> (r: String)
    ensures
        trimmed@.len() == 0 ==> r@ == default_name@,
        trimmed@.len() > 0 ==> r@ == trimmed@,
{
    if trimmed.is_empty() {
        default_name
    } else {
        String::from_str(trimmed)
    }
}

/// Interprets a yes/no answer: anything but a literal "no" affirms.
pub fn affirmed(trimmed: &str) -> (r: bool)
    ensures
        r == (trimmed@ != "no"@),
{
    !str_eq(trimmed, "no")
}

/// Validates a 1-based menu choice against the number of entries offered,
/// and turns it into the chosen index.
pub fn selection_index(choice: usize, count: usize) -> (r: Option<usize>)
    ensures
        1 <= choice <= count ==> r == Option::Some((choice - 1) as usize),
        !(1 <= choice <= count) ==> r is None,
{
    if 1 <= choice && choice <= count {
        Option::Some(choice - 1)
    } else {
        Option::None
    }
}

} // verus!
