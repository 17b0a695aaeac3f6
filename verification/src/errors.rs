//! Errors the loaders decide on their own: parse-independent referential
//! and structural failures, each with its rendered message.

use vstd::prelude::*;
use vstd::string::StringExecFns;

verus! {

/// A loading failure the loaders themselves decide (as opposed to read or
/// parse failures, which the surrounding program reports).
#[derive(Clone, Debug)]
pub enum LoadError {
    /// A workflow's `steps` list names a key absent from its step table.
    UndefinedStep(String),
    /// A step's `type` is neither `agent` nor `team`: the kind, then the key.
    UnsupportedStepType(String, String),
    /// A team definition has an empty member list.
    TeamHasNoMembers(String),
    /// A team file path has no parent directory to resolve a relative prompt
    /// path against.
    NoParentDir,
}

impl LoadError {
    /// The rendered diagnostic for this failure.
    pub fn message(&self) -> (r: String)
        ensures
            match self {
                LoadError::UndefinedStep(key) => r@ == "workflow step '"@ + key@
                    + "' not defined in [step.*]"@,
                LoadError::UnsupportedStepType(kind, key) => r@ == "unsupported step type '"@
                    + kind@ + "' for step '"@ + key@ + "'"@,
                LoadError::TeamHasNoMembers(name) => r@ == "Team '"@ + name@ + "' has no members"@,
                LoadError::NoParentDir => r@ == "team config path has no parent directory"@,
            },
    {
        match self {
            LoadError::UndefinedStep(key) => {
                let mut s = String::from_str("workflow step '");
                s.append(key.as_str());
                s.append("' not defined in [step.*]");
                s
            },
            LoadError::UnsupportedStepType(kind, key) => {
                let mut s = String::from_str("unsupported step type '");
                s.append(kind.as_str());
                s.append("' for step '");
                s.append(key.as_str());
                s.append("'");
                s
            },
            LoadError::TeamHasNoMembers(name) => {
                let mut s = String::from_str("Team '");
                s.append(name.as_str());
                s.append("' has no members");
                s
            },
            LoadError::NoParentDir => String::from_str("team config path has no parent directory"),
        }
    }
}

} // verus!
