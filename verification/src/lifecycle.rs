//! Planning of the environment lifecycle and package operations that are
//! delegated to the external tool.
//!
//! Each operation is decided here, from the resolved locations and the facts
//! the binary observed (does the path exist, is the marker set), and comes
//! back either as an error or as the exact data to act on: the argument
//! vector for the external tool, or the path to delete. The binary carries
//! the plan out without further decisions.

use vstd::prelude::*;
use vstd::string::StringExecFns;

use crate::activation::require_active;
use crate::activation::spec_is_active;
use crate::errors::VuvError;
use crate::locations::Platform;
use crate::locations::ResolvedLocations;
use crate::locations::join_path;
use crate::locations::joined;

verus! {

/// The file name under which the external tool must be found on the
/// execution search path.
pub open spec fn spec_tool_name(platform: Platform) -> Seq<char> {
    match platform {
        Platform::Posix => "uv"@,
        Platform::Windows => "uv.exe"@,
    }
}

/// The name to look up on the execution search path for the external tool.
pub fn uv_tool_name(platform: Platform) -> (r: &'static str)
    ensures
        r@ == spec_tool_name(platform),
{
    match platform {
        Platform::Posix => "uv",
        Platform::Windows => "uv.exe",
    }
}

/// Turns the result of the search-path lookup into the up-front gate: the
/// external tool's absence is fatal, checked once before any command runs.
pub fn check_tool_present(found: bool) -> (r: Result<(), VuvError>)
    ensures
        r is Ok <==> found,
        r is Err ==> r->Err_0 == VuvError::ToolMissing,
{
    if found {
        Ok(())
    } else {
        Err(VuvError::ToolMissing)
    }
}

/// The path under which the environment `name` is (or would be)
/// materialized: the store directory joined with the name.
pub open spec fn spec_venv_path(locs: ResolvedLocations, name: Seq<char>) -> Seq<char> {
    joined(locs.venv_dir@, locs.platform, name)
}

/// Computes the path of the named environment inside the store.
pub fn venv_path(locs: &ResolvedLocations, name: &str) -> (r: String)
    ensures
        r@ == spec_venv_path(*locs, name@),
{
    join_path(locs.venv_dir.as_str(), locs.platform, name)
}

/// The argument vector handed to the external tool to create an
/// environment at `path` with the requested interpreter version.
pub open spec fn spec_create_args(path: Seq<char>, python: Seq<char>) -> Seq<Seq<char>> {
    seq!["venv"@, path, "--python"@, python]
}

/// Plans the creation of the named environment. `exists` is whether the
/// environment's path is already present in the store: then the name is
/// taken and nothing is delegated; otherwise the external tool is to be run
/// with exactly the returned arguments.
pub fn plan_create(locs: &ResolvedLocations, name: &str, python: &str, exists: bool) -> (r: Result<
    Vec<String>,
    VuvError,
>)
    ensures
        r is Ok <==> !exists,
        r is Ok ==> r->Ok_0.deep_view() == spec_create_args(spec_venv_path(*locs, name@), python@),
        r is Err ==> r->Err_0 is AlreadyExists && r->Err_0->AlreadyExists_0@ == name@,
{
    if exists {
        Err(VuvError::AlreadyExists(name.to_owned()))
    } else {
        let mut args: Vec<String> = Vec::new();
        args.push("venv".to_owned());
        args.push(venv_path(locs, name));
        args.push("--python".to_owned());
        args.push(python.to_owned());
        proof {
            assert(args.deep_view() =~= spec_create_args(spec_venv_path(*locs, name@), python@));
        }
        Ok(args)
    }
}

/// Plans the removal of the named environment. `exists` is whether the
/// environment's path is present in the store: if it is not, the name is
/// unknown and nothing is deleted; otherwise exactly the returned path is to
/// be deleted recursively.
pub fn plan_remove(locs: &ResolvedLocations, name: &str, exists: bool) -> (r: Result<
    String,
    VuvError,
>)
    ensures
        r is Ok <==> exists,
        r is Ok ==> r->Ok_0@ == spec_venv_path(*locs, name@),
        r is Err ==> r->Err_0 is NotFound && r->Err_0->NotFound_0@ == name@,
{
    if exists {
        Ok(venv_path(locs, name))
    } else {
        Err(VuvError::NotFound(name.to_owned()))
    }
}

/// The argument vector handed to the external tool for a package operation
/// on the active environment.
pub open spec fn spec_pip_args(install: bool, packages: Seq<Seq<char>>) -> Seq<Seq<char>> {
    seq!["pip"@, if install { "install"@ } else { "uninstall"@ }] + packages
}

/// Plans a package install or uninstall. Fails, delegating nothing, exactly
/// when no environment is active; otherwise the external tool is to be run
/// with exactly the returned arguments, the package names in their given
/// order.
pub fn plan_pip(install: bool, packages: &Vec<String>, marker: &Option<String>) -> (r: Result<
    Vec<String>,
    VuvError,
>)
    ensures
        r is Ok <==> spec_is_active(marker.deep_view()),
        r is Ok ==> r->Ok_0.deep_view() == spec_pip_args(install, packages.deep_view()),
        r is Err ==> r->Err_0 == VuvError::NotActive,
{
    match require_active(marker) {
        Err(e) => Err(e),
        Ok(()) => {
            let mut args: Vec<String> = Vec::new();
            args.push("pip".to_owned());
            if install {
                args.push("install".to_owned());
            } else {
                args.push("uninstall".to_owned());
            }
            let n = packages.len();
            let mut i: usize = 0;
            while i < n
                invariant
                    i <= n,
                    n == packages@.len(),
                    args.deep_view() =~= spec_pip_args(install, packages.deep_view().take(i as int)),
                decreases n - i,
            {
                let ghost pre = args.deep_view();
                args.push(packages[i].clone());
                proof {
                    let pkgs = packages.deep_view();
                    assert(args.deep_view() =~= pre.push(pkgs[i as int]));
                    assert(pkgs.take(i as int + 1) =~= pkgs.take(i as int).push(pkgs[i as int]));
                    assert(args.deep_view() =~= spec_pip_args(install, pkgs.take(i as int + 1)));
                }
                i += 1;
            }
            proof {
                assert(packages.deep_view().take(n as int) =~= packages.deep_view());
            }
            Ok(args)
        },
    }
}

/// The report for the list operation: one indented line per environment
/// name, in the given order; a single notice when the store is empty.
pub open spec fn spec_listing(names: Seq<Seq<char>>) -> Seq<Seq<char>> {
    if names.len() == 0 {
        seq!["No virtual environments found"@]
    } else {
        names.map(|i: int, n: Seq<char>| "  "@ + n)
    }
}

/// Renders the report lines for the names found in the store, each name
/// exactly once, in the order given.
pub fn listing_lines(names: &Vec<String>) -> (r: Vec<String>)
    ensures
        r.deep_view() == spec_listing(names.deep_view()),
{
    let mut r: Vec<String> = Vec::new();
    if names.len() == 0 {
        r.push("No virtual environments found".to_owned());
        proof {
            assert(r.deep_view() =~= spec_listing(names.deep_view()));
        }
    } else {
        let n = names.len();
        let mut i: usize = 0;
        while i < n
            invariant
                i <= n,
                n == names@.len(),
                r.deep_view().len() == i,
                forall|j: int| 0 <= j < i ==> r.deep_view()[j] == "  "@ + names.deep_view()[j],
            decreases n - i,
        {
            let ghost pre = r.deep_view();
            let line = "  ".to_owned().concat(names[i].as_str());
            let ghost lv = line@;
            r.push(line);
            proof {
                assert(r.deep_view() =~= pre.push(lv));
            }
            i += 1;
        }
        proof {
            assert(r.deep_view() =~= spec_listing(names.deep_view()));
        }
    }
    r
}

/// The lines printed after a successful creation, telling the user how to
/// activate the new environment.
pub open spec fn spec_create_success_lines(name: Seq<char>) -> Seq<Seq<char>> {
    seq!["Created virtual environment: "@ + name, "To activate, run: vuv activate "@ + name]
}

/// Renders the notice printed after a successful creation.
pub fn create_success_lines(name: &str) -> (r: Vec<String>)
    ensures
        r.deep_view() == spec_create_success_lines(name@),
{
    let mut r: Vec<String> = Vec::new();
    r.push("Created virtual environment: ".to_owned().concat(name));
    r.push("To activate, run: vuv activate ".to_owned().concat(name));
    proof {
        assert(r.deep_view() =~= spec_create_success_lines(name@));
    }
    r
}

/// Renders the notice printed after a successful removal.
pub fn remove_success_line(name: &str) -> (r: String)
    ensures
        r@ == "Removed virtual environment: "@ + name@,
{
    let r = "Removed virtual environment: ".to_owned().concat(name);
    proof {
        assert(r@ =~= "Removed virtual environment: "@ + name@);
    }
    r
}

/// Renders the heading naming the store directory, printed before the list
/// report.
pub fn store_header_line(locs: &ResolvedLocations) -> (r: String)
    ensures
        r@ == "Virtual environments directory: "@ + locs.venv_dir@,
{
    let r = "Virtual environments directory: ".to_owned().concat(locs.venv_dir.as_str());
    proof {
        assert(r@ =~= "Virtual environments directory: "@ + locs.venv_dir@);
    }
    r
}

/// The informational block describing the current configuration and the
/// override variables that customize it.
pub open spec fn spec_config_info_lines(locs: ResolvedLocations) -> Seq<Seq<char>> {
    seq![
        "Current configuration:"@,
        "Virtual environments directory: "@ + locs.venv_dir@,
        "Configuration directory: "@ + locs.config_dir@,
        "To customize these locations, set these environment variables:"@,
        "VUV_VENV_DIR  - Directory for virtual environments"@,
        "VUV_CONFIG_DIR - Directory for vuv configuration"@,
    ]
}

/// Renders the informational block describing the current configuration.
pub fn config_info_lines(locs: &ResolvedLocations) -> (r: Vec<String>)
    ensures
        r.deep_view() == spec_config_info_lines(*locs),
{
    let mut r: Vec<String> = Vec::new();
    r.push("Current configuration:".to_owned());
    r.push(store_header_line(locs));
    r.push("Configuration directory: ".to_owned().concat(locs.config_dir.as_str()));
    r.push("To customize these locations, set these environment variables:".to_owned());
    r.push("VUV_VENV_DIR  - Directory for virtual environments".to_owned());
    r.push("VUV_CONFIG_DIR - Directory for vuv configuration".to_owned());
    proof {
        assert(r.deep_view() =~= spec_config_info_lines(*locs));
    }
    r
}

} // verus!
