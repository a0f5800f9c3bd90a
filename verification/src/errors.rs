//! The errors this tool reports to the user before, or instead of,
//! delegating work to the external tool or the filesystem.

use vstd::prelude::*;
use vstd::string::StringExecFns;

use crate::locations::Platform;

verus! {

/// Everything that can stop a command before its effect happens.
#[derive(Debug)]
pub enum VuvError {
    /// No override was given and the platform base directory is unknown, so
    /// the storage locations cannot be determined. Fatal: nothing runs.
    LocationResolution(Platform),
    /// An environment with this name already exists in the store.
    AlreadyExists(String),
    /// No environment with this name exists in the store.
    NotFound(String),
    /// A package operation was attempted while no environment is active.
    NotActive,
    /// The external tool is not on the execution search path. Fatal.
    ToolMissing,
}

/// The user-facing message of each error.
pub open spec fn spec_message(e: VuvError) -> Seq<char> {
    match e {
        VuvError::LocationResolution(p) => match p {
            Platform::Windows => "Could not find APPDATA directory"@,
            Platform::Posix => "Could not find home directory"@,
        },
        VuvError::AlreadyExists(name) => "Virtual environment "@ + name@ + " already exists"@,
        VuvError::NotFound(name) => "Virtual environment "@ + name@ + " does not exist"@,
        VuvError::NotActive => {
            "No virtual environment is currently activated. Please activate one first."@
        },
        VuvError::ToolMissing => "uv is not installed"@,
    }
}

impl VuvError {
    /// Renders the user-facing message for this error.
    pub fn message(&self) -> (r: String)
        ensures
            r@ == spec_message(*self),
    {
        match self {
            VuvError::LocationResolution(p) => match p {
                Platform::Windows => "Could not find APPDATA directory".to_owned(),
                Platform::Posix => "Could not find home directory".to_owned(),
            },
            VuvError::AlreadyExists(name) => {
                let r = "Virtual environment ".to_owned().concat(name.as_str()).concat(
                    " already exists",
                );
                proof {
                    assert(r@ =~= spec_message(*self));
                }
                r
            },
            VuvError::NotFound(name) => {
                let r = "Virtual environment ".to_owned().concat(name.as_str()).concat(
                    " does not exist",
                );
                proof {
                    assert(r@ =~= spec_message(*self));
                }
                r
            },
            VuvError::NotActive => {
                "No virtual environment is currently activated. Please activate one first.".to_owned()
            },
            VuvError::ToolMissing => "uv is not installed".to_owned(),
        }
    }
}

} // verus!
