//! Update planning for Windows: an MSIX package is validated and registered
//! with the operating system's package manager.
//!
//! Application data can live in two places on Windows. The application sees
//! it under the conventional application data path, but when the application
//! is sandboxed the real files live under a sandbox-private cache directory,
//! and the conventional path is only presented by virtualization. A path
//! that must be valid outside the sandbox is therefore remapped: the
//! application data root is replaced by the sandbox root, keeping the
//! relative suffix. The remapped paths are preferred only when real files
//! exist at them, which the caller establishes with a filesystem-attribute
//! probe that bypasses the virtualization.
//!
//! The functions here decide everything: which files are the candidates, how
//! paths are remapped, which paths are used, and what is registered. The
//! caller lists the update directory, probes the remapped paths, reads the
//! two files and performs the registration.

use vstd::prelude::*;

use crate::errors::{UpdateError, ValidationError};
use crate::pathops::path_join;
use crate::strutil::{lex_le, str_starts_with};
use crate::update::common::{select_latest_candidate, spec_has_extension};

verus! {

/// What the caller gathered for a Windows update attempt.
pub struct WinUpdateEnv {
    /// The resolved profile directory.
    pub profile_directory: String,
    /// The conventional application data root (`%APPDATA%`).
    pub appdata_dir: String,
    /// The sandbox-private local cache directory, when the platform reports
    /// one.
    pub sandbox_cache_dir: Option<String>,
}

/// The update candidates of a Windows update attempt, together with their
/// sandbox-remapped paths when those could be derived.
#[derive(Debug, PartialEq, Eq)]
pub struct WinCandidates {
    /// The file name of the chosen MSIX package.
    pub msix_name: String,
    /// The file name of the chosen checksum file.
    pub checksum_name: String,
    /// The full path of the chosen MSIX package, as the application sees it.
    pub msix_path: String,
    /// The full path of the chosen checksum file, as the application sees it.
    pub checksum_path: String,
    /// The sandbox-remapped path of the MSIX package, when derivable.
    pub sandboxed_msix_path: Option<String>,
    /// The sandbox-remapped path of the checksum file, when derivable.
    pub sandboxed_checksum_path: Option<String>,
}

/// The paths actually used for validation and installation.
#[derive(Debug, PartialEq, Eq)]
pub struct WinInstallPaths {
    pub msix_path: String,
    pub checksum_path: String,
}

/// What is registered with the operating system's package manager.
#[derive(Debug, PartialEq, Eq)]
pub struct MsixRegistration {
    /// The package to register for installation.
    pub package_path: String,
    /// The running application is shut down by force so that the update can
    /// be applied.
    pub force_app_shutdown: bool,
    /// The operating system is asked to restart the application's registered
    /// executable afterwards.
    pub restart_requested: bool,
}

/// The directory under the profile that holds predownloaded updates.
pub open spec fn spec_update_dir(profile: Seq<char>) -> Seq<char> {
    profile + "\\"@ + "temp"@ + "\\"@ + "update"@
}

/// The sandbox-private application data base: the platform's local cache
/// directory with `Roaming` appended.
pub open spec fn spec_sandbox_base_dir(cache_dir: Seq<char>) -> Seq<char> {
    cache_dir + "\\"@ + "Roaming"@
}

/// A path remapped from the application data root to the sandbox base: the
/// base with the path's suffix relative to the root appended, when the path
/// lies strictly below the root.
pub open spec fn spec_sandbox_aware_path(
    path: Seq<char>,
    appdata_dir: Seq<char>,
    sandbox_base_dir: Seq<char>,
) -> Option<Seq<char>> {
    if path.len() > appdata_dir.len() && path.take(appdata_dir.len() as int) == appdata_dir
        && path[appdata_dir.len() as int] == '\\' {
        Some(sandbox_base_dir + "\\"@ + path.skip(appdata_dir.len() + 1 as int))
    } else {
        None
    }
}

/// The sandbox-private application data base directory, derived from the
/// platform's local cache directory.
pub fn get_persistent_sandbox_app_data_base_dir(local_cache_dir: &str) -> (r: String)
    ensures
        r@ == spec_sandbox_base_dir(local_cache_dir@),
{
    path_join(local_cache_dir, "\\", "Roaming")
}

/// Transforms a path below the application data root into the matching
/// sandbox-aware path, keeping the relative suffix; a path not strictly
/// below the root has no sandbox-aware counterpart.
pub fn get_sandbox_aware_path_of(path: &str, appdata_dir: &str, sandbox_base_dir: &str) -> (r:
    Option<String>)
    ensures
        match r {
            Some(p) => spec_sandbox_aware_path(path@, appdata_dir@, sandbox_base_dir@) == Some(p@),
            None => spec_sandbox_aware_path(path@, appdata_dir@, sandbox_base_dir@) is None,
        },
{
    let path_len = path.unicode_len();
    let root_len = appdata_dir.unicode_len();
    if path_len > root_len && str_starts_with(path, appdata_dir) && path.get_char(root_len)
        == '\\' {
        let rest = path.substring_char(root_len + 1, path_len);
        proof {
            assert(rest@ =~= path@.skip(appdata_dir@.len() + 1 as int));
        }
        Some(path_join(sandbox_base_dir, "\\", rest))
    } else {
        None
    }
}

/// Locates the predownloaded update and derives the sandbox-remapped paths.
///
/// The listing holds the file names in `<profile>\temp\update`. The chosen
/// package and checksum file are the lexicographically last candidates of
/// their extensions; a missing candidate fails the attempt. The remapped
/// paths are derived when the platform reports a sandbox cache directory and
/// the candidates lie below the application data root.
pub fn validate_and_install_latest_predownloaded_update(
    env: &WinUpdateEnv,
    update_dir_listing: &Vec<String>,
) -> (r: Result<WinCandidates, UpdateError>)
    ensures
        match r {
            Ok(c) => {
                &&& update_dir_listing@.contains(c.msix_name)
                &&& spec_has_extension(c.msix_name@, "msix"@)
                &&& forall|i: int|
                    0 <= i < update_dir_listing@.len() && spec_has_extension(
                        update_dir_listing@[i]@,
                        "msix"@,
                    ) ==> lex_le(update_dir_listing@[i]@, c.msix_name@)
                &&& update_dir_listing@.contains(c.checksum_name)
                &&& spec_has_extension(c.checksum_name@, "sha256"@)
                &&& forall|i: int|
                    0 <= i < update_dir_listing@.len() && spec_has_extension(
                        update_dir_listing@[i]@,
                        "sha256"@,
                    ) ==> lex_le(update_dir_listing@[i]@, c.checksum_name@)
                &&& c.msix_path@ == spec_update_dir(env.profile_directory@) + "\\"@ + c.msix_name@
                &&& c.checksum_path@ == spec_update_dir(env.profile_directory@) + "\\"@
                    + c.checksum_name@
                &&& match env.sandbox_cache_dir {
                    Some(cache) => {
                        let base = spec_sandbox_base_dir(cache@);
                        &&& (match c.sandboxed_msix_path {
                            Some(p) => spec_sandbox_aware_path(c.msix_path@, env.appdata_dir@, base)
                                == Some(p@),
                            None => spec_sandbox_aware_path(
                                c.msix_path@,
                                env.appdata_dir@,
                                base,
                            ) is None,
                        })
                        &&& (match c.sandboxed_checksum_path {
                            Some(p) => spec_sandbox_aware_path(
                                c.checksum_path@,
                                env.appdata_dir@,
                                base,
                            ) == Some(p@),
                            None => spec_sandbox_aware_path(
                                c.checksum_path@,
                                env.appdata_dir@,
                                base,
                            ) is None,
                        })
                    },
                    None => c.sandboxed_msix_path is None && c.sandboxed_checksum_path is None,
                }
            },
            Err(UpdateError::PayloadNotFound) => forall|i: int|
                0 <= i < update_dir_listing@.len() ==> !spec_has_extension(
                    update_dir_listing@[i]@,
                    "msix"@,
                ),
            Err(UpdateError::ChecksumNotFound) => forall|i: int|
                0 <= i < update_dir_listing@.len() ==> !spec_has_extension(
                    update_dir_listing@[i]@,
                    "sha256"@,
                ),
            _ => false,
        },
{
    let msix_name = match select_latest_candidate(update_dir_listing, "msix") {
        Some(n) => n,
        None => {
            return Err(UpdateError::PayloadNotFound);
        },
    };
    let checksum_name = match select_latest_candidate(update_dir_listing, "sha256") {
        Some(n) => n,
        None => {
            return Err(UpdateError::ChecksumNotFound);
        },
    };
    let temp_dir = path_join(env.profile_directory.as_str(), "\\", "temp");
    let update_dir = path_join(temp_dir.as_str(), "\\", "update");
    let msix_path = path_join(update_dir.as_str(), "\\", msix_name.as_str());
    let checksum_path = path_join(update_dir.as_str(), "\\", checksum_name.as_str());
    let (sandboxed_msix_path, sandboxed_checksum_path) = match &env.sandbox_cache_dir {
        Some(cache) => {
            let base = get_persistent_sandbox_app_data_base_dir(cache.as_str());
            let m = get_sandbox_aware_path_of(
                msix_path.as_str(),
                env.appdata_dir.as_str(),
                base.as_str(),
            );
            let c = get_sandbox_aware_path_of(
                checksum_path.as_str(),
                env.appdata_dir.as_str(),
                base.as_str(),
            );
            (m, c)
        },
        None => (None, None),
    };
    Ok(
        WinCandidates {
            msix_name,
            checksum_name,
            msix_path,
            checksum_path,
            sandboxed_msix_path,
            sandboxed_checksum_path,
        },
    )
}

/// Chooses the paths used for validation and installation: the remapped
/// paths when both were derivable and the caller's probe found real files at
/// both, the conventional paths otherwise.
pub fn resolve_install_paths(c: &WinCandidates, sandboxed_files_exist: bool) -> (r: WinInstallPaths)
    ensures
        match (c.sandboxed_msix_path, c.sandboxed_checksum_path) {
            (Some(m), Some(s)) => if sandboxed_files_exist {
                r.msix_path@ == m@ && r.checksum_path@ == s@
            } else {
                r.msix_path@ == c.msix_path@ && r.checksum_path@ == c.checksum_path@
            },
            _ => r.msix_path@ == c.msix_path@ && r.checksum_path@ == c.checksum_path@,
        },
{
    if sandboxed_files_exist {
        match (&c.sandboxed_msix_path, &c.sandboxed_checksum_path) {
            (Some(m), Some(s)) => WinInstallPaths { msix_path: m.clone(), checksum_path: s.clone() },
            _ => WinInstallPaths {
                msix_path: c.msix_path.clone(),
                checksum_path: c.checksum_path.clone(),
            },
        }
    } else {
        WinInstallPaths {
            msix_path: c.msix_path.clone(),
            checksum_path: c.checksum_path.clone(),
        }
    }
}

/// Decides what a Windows update attempt registers with the package manager.
///
/// A failed validation short-circuits the attempt: nothing is registered, so
/// the installed application is not touched. Otherwise the chosen package is
/// registered with the running application shut down by force and an
/// automatic restart requested.
pub fn win_install_decision(msix_path: &str, validation: Result<(), ValidationError>) -> (r: Result<
    MsixRegistration,
    UpdateError,
>)
    ensures
        validation matches Err(e) ==> r == Err::<MsixRegistration, UpdateError>(
            UpdateError::Validation(e),
        ),
        validation is Ok ==> (r matches Ok(reg) && reg.package_path@ == msix_path@
            && reg.force_app_shutdown && reg.restart_requested),
{
    match validation {
        Err(e) => Err(UpdateError::Validation(e)),
        Ok(()) => Ok(
            MsixRegistration {
                package_path: String::from_str(msix_path),
                force_app_shutdown: true,
                restart_requested: true,
            },
        ),
    }
}

} // verus!
