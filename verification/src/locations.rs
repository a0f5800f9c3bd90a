//! Resolution of the two storage directories and the configuration artifact
//! path, from explicit override inputs and the platform base directory.

use vstd::prelude::*;
use vstd::string::StringExecFns;

use crate::errors::VuvError;

verus! {

/// The platform identity that decides path separators, base directories and
/// assignment syntax.
#[derive(Clone, Copy, PartialEq, Eq, Structural, Debug)]
pub enum Platform {
    Posix,
    Windows,
}

/// The path separator used when joining a directory with a child name.
pub open spec fn sep_of(platform: Platform) -> Seq<char> {
    match platform {
        Platform::Posix => "/"@,
        Platform::Windows => "\\"@,
    }
}

/// `base` joined with the child `name`, using the platform separator.
pub open spec fn joined(base: Seq<char>, platform: Platform, name: Seq<char>) -> Seq<char> {
    base + sep_of(platform) + name
}

/// Joins a directory with a child name using the platform separator.
pub fn join_path(base: &str, platform: Platform, name: &str) -> (r: String)
    ensures
        r@ == joined(base@, platform, name@),
{
    let sep: &'static str = match platform {
        Platform::Posix => "/",
        Platform::Windows => "\\",
    };
    let r = base.to_owned().concat(sep).concat(name);
    proof {
        assert(r@ =~= joined(base@, platform, name@));
    }
    r
}

/// Subdirectory of the base directory that holds the environment store.
pub open spec fn venv_subdir() -> Seq<char> {
    ".venvs"@
}

/// Subdirectory of the base directory that holds this tool's configuration.
pub open spec fn config_subdir() -> Seq<char> {
    ".vuv"@
}

/// Name of the configuration artifact file inside the configuration
/// directory; the one file the shell integration sources.
pub open spec fn config_file_name() -> Seq<char> {
    "vuv_config"@
}

/// The platform base directory: the application-data directory on Windows,
/// the home directory elsewhere; `None` when that input is unavailable.
pub open spec fn base_dir_of(
    platform: Platform,
    appdata: Option<Seq<char>>,
    home: Option<Seq<char>>,
) -> Option<Seq<char>> {
    match platform {
        Platform::Windows => appdata,
        Platform::Posix => home,
    }
}

/// The two-tier rule for one directory: an override value is taken verbatim;
/// otherwise the platform base directory with `sub` appended; `None` when
/// neither is available.
pub open spec fn spec_dir(
    override_val: Option<Seq<char>>,
    platform: Platform,
    base: Option<Seq<char>>,
    sub: Seq<char>,
) -> Option<Seq<char>> {
    if override_val is Some {
        Some(override_val->0)
    } else if base is Some {
        Some(joined(base->0, platform, sub))
    } else {
        None
    }
}

/// The resolved storage locations, fixed for the duration of one command.
#[derive(Debug)]
pub struct ResolvedLocations {
    pub platform: Platform,
    /// Directory holding one subdirectory per named virtual environment.
    pub venv_dir: String,
    /// Directory for this tool's own configuration artifacts.
    pub config_dir: String,
    /// The configuration artifact: `config_dir` joined with a fixed filename.
    pub config_file: String,
}

impl ResolvedLocations {
    /// The configuration artifact always lives directly under the
    /// configuration directory.
    pub open spec fn wf(self) -> bool {
        self.config_file@ == joined(self.config_dir@, self.platform, config_file_name())
    }
}

/// Computes the storage locations from the two optional override values and
/// the platform base-directory inputs. An override is used verbatim; without
/// one, a fixed subdirectory of the platform base directory is used; when
/// neither is available the command cannot proceed.
pub fn resolve(
    platform: Platform,
    venv_override: Option<String>,
    config_override: Option<String>,
    appdata: Option<String>,
    home: Option<String>,
) -> (r: Result<ResolvedLocations, VuvError>)
    ensures
        ({
            let base = base_dir_of(platform, appdata.deep_view(), home.deep_view());
            let vd = spec_dir(venv_override.deep_view(), platform, base, venv_subdir());
            let cd = spec_dir(config_override.deep_view(), platform, base, config_subdir());
            &&& r is Ok <==> (vd is Some && cd is Some)
            &&& r is Ok ==> {
                &&& r->Ok_0.platform == platform
                &&& r->Ok_0.venv_dir@ == vd->0
                &&& r->Ok_0.config_dir@ == cd->0
                &&& r->Ok_0.wf()
            }
            &&& r is Err ==> r->Err_0 == VuvError::LocationResolution(platform)
        }),
{
    let base: Option<String> = match platform {
        Platform::Windows => appdata,
        Platform::Posix => home,
    };
    let venv_dir: String = match venv_override {
        Some(d) => d,
        None => match &base {
            Some(b) => join_path(b.as_str(), platform, ".venvs"),
            None => {
                return Err(VuvError::LocationResolution(platform));
            },
        },
    };
    let config_dir: String = match config_override {
        Some(d) => d,
        None => match &base {
            Some(b) => join_path(b.as_str(), platform, ".vuv"),
            None => {
                return Err(VuvError::LocationResolution(platform));
            },
        },
    };
    let config_file = join_path(config_dir.as_str(), platform, "vuv_config");
    Ok(ResolvedLocations { platform, venv_dir, config_dir, config_file })
}

/// An override value wins unconditionally: when one is given for a
/// directory, that directory resolves to exactly the override value,
/// whatever the platform identity is and whether or not a platform base
/// directory is available.
pub proof fn lemma_override_wins(
    ov: Seq<char>,
    platform: Platform,
    base: Option<Seq<char>>,
    sub: Seq<char>,
)
    ensures
        spec_dir(Some(ov), platform, base, sub) == Some(ov),
{
}

/// Without an override, resolution is a function of the platform base
/// directory alone: whenever that input is present, the directory resolves
/// to exactly the fixed subdirectory of it — the same locations for the
/// same base, on every call.
pub proof fn lemma_fallback_deterministic(platform: Platform, base: Seq<char>, sub: Seq<char>)
    ensures
        spec_dir(None, platform, Some(base), sub) == Some(joined(base, platform, sub)),
{
}

/// The set of existing directories after the directory-creation step: the
/// store and configuration directories are present, and everything that
/// already existed stays.
pub open spec fn dirs_after_ensure(existing: Set<Seq<char>>, locs: ResolvedLocations) -> Set<
    Seq<char>,
> {
    existing.insert(locs.venv_dir@).insert(locs.config_dir@)
}

/// Ensuring the directories exist is idempotent: running the step twice in
/// succession leaves exactly the directory state that one run leaves, both
/// resolved directories are present afterwards, and no existing directory
/// is disturbed.
pub proof fn lemma_ensure_dirs_idempotent(existing: Set<Seq<char>>, locs: ResolvedLocations)
    ensures
        dirs_after_ensure(dirs_after_ensure(existing, locs), locs) == dirs_after_ensure(
            existing,
            locs,
        ),
        dirs_after_ensure(existing, locs).contains(locs.venv_dir@),
        dirs_after_ensure(existing, locs).contains(locs.config_dir@),
        forall|d: Seq<char>|
            existing.contains(d) ==> dirs_after_ensure(existing, locs).contains(d),
{
    assert(dirs_after_ensure(dirs_after_ensure(existing, locs), locs) =~= dirs_after_ensure(
        existing,
        locs,
    ));
}

} // verus!
