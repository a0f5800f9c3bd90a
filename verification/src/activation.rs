//! Detection of the inherited activation state and the shell-sourceable
//! configuration artifact that bridges into the parent shell.
//!
//! A child process cannot mutate its parent shell's environment, so the
//! activation marker is only ever observed here, and persistent settings are
//! written as a file that an external shell wrapper later sources.

use vstd::prelude::*;
use vstd::string::StringExecFns;

use crate::errors::VuvError;
use crate::locations::Platform;
use crate::locations::ResolvedLocations;

verus! {

/// An environment is active iff the inherited marker variable is present
/// with a non-empty value.
pub open spec fn spec_is_active(marker: Option<Seq<char>>) -> bool {
    marker is Some && marker->0.len() > 0
}

/// Reads the activation state from the marker value inherited from the
/// parent shell. True iff the marker is present and non-empty.
pub fn is_environment_active(marker: &Option<String>) -> (r: bool)
    ensures
        r == spec_is_active(marker.deep_view()),
{
    match marker {
        Some(s) => !s.as_str().is_empty(),
        None => false,
    }
}

/// Gates a package operation on activation state: fails exactly when no
/// environment is active, and then nothing may be delegated.
pub fn require_active(marker: &Option<String>) -> (r: Result<(), VuvError>)
    ensures
        r is Ok <==> spec_is_active(marker.deep_view()),
        r is Err ==> r->Err_0 == VuvError::NotActive,
{
    if is_environment_active(marker) {
        Ok(())
    } else {
        Err(VuvError::NotActive)
    }
}

/// The single shell-assignment statement for one key/value pair, in the
/// platform's syntax: `export KEY=VALUE` for POSIX shells, `$env:KEY="VALUE"`
/// for the Windows shell.
pub open spec fn spec_config_line(platform: Platform, key: Seq<char>, value: Seq<char>) -> Seq<
    char,
> {
    match platform {
        Platform::Posix => "export "@ + key + "="@ + value,
        Platform::Windows => "$env:"@ + key + "=\""@ + value + "\""@,
    }
}

/// Formats the shell assignment for one key/value pair in the platform's
/// syntax.
pub fn format_config_line(platform: Platform, key: &str, value: &str) -> (r: String)
    ensures
        r@ == spec_config_line(platform, key@, value@),
{
    let r = match platform {
        Platform::Posix => "export ".to_owned().concat(key).concat("=").concat(value),
        Platform::Windows => "$env:".to_owned().concat(key).concat("=\"").concat(value).concat(
            "\"",
        ),
    };
    proof {
        assert(r@ =~= spec_config_line(platform, key@, value@));
    }
    r
}

/// A pending write of the configuration artifact: the file at `path` is to
/// be replaced, wholesale, with `content`.
pub struct ConfigWrite {
    pub path: String,
    pub content: String,
}

/// Plans the persistent write of one configuration key. The artifact file is
/// replaced with exactly the one assignment line for this key/value pair —
/// whatever the file held before is discarded, so a key not written in this
/// call does not survive it.
pub fn plan_config_write(locs: &ResolvedLocations, key: &str, value: &str) -> (r: ConfigWrite)
    ensures
        r.path@ == locs.config_file@,
        r.content@ == spec_config_line(locs.platform, key@, value@),
{
    ConfigWrite {
        path: locs.config_file.clone(),
        content: format_config_line(locs.platform, key, value),
    }
}

} // verus!
