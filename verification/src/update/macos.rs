//! Update planning for macOS: a disk image is mounted, the installed
//! application bundle is replaced by the one on the image, and the image is
//! unmounted again.
//!
//! The functions here decide everything: which files are the update
//! candidates, where the image is mounted, which external commands run and
//! in which order. The caller performs the filesystem work: it lists the
//! update directory, reads the two files, probes the mount point and runs
//! the commands, handing each result back.

use vstd::prelude::*;

use crate::errors::{UpdateError, ValidationError};
use crate::pathops::{path_join, parent_dir, spec_parent_dir};
use crate::strutil::lex_le;
use crate::update::common::{select_latest_candidate, spec_has_extension};

verus! {

/// What the caller gathered for a macOS update attempt.
pub struct MacUpdateEnv {
    /// The resolved profile directory.
    pub profile_directory: String,
    /// The application name of the running build flavor.
    pub app_name: String,
    /// The path of the currently running executable.
    pub executable_path: String,
}

/// The resolved paths of a macOS update attempt.
#[derive(Debug, PartialEq, Eq)]
pub struct MacUpdatePlan {
    /// The file name of the chosen disk image.
    pub dmg_name: String,
    /// The file name of the chosen checksum file.
    pub checksum_name: String,
    /// The full path of the chosen disk image.
    pub dmg_path: String,
    /// The full path of the chosen checksum file.
    pub checksum_path: String,
    /// Where the disk image is mounted.
    pub mount_point: String,
    /// The application bundle on the mounted image.
    pub source_app: String,
    /// The directory holding the installed application bundle.
    pub install_dir: String,
    /// The installed application bundle to be replaced.
    pub installed_app: String,
}

/// The directory under the profile that holds predownloaded updates.
pub open spec fn spec_update_dir(profile: Seq<char>) -> Seq<char> {
    profile + "/"@ + "temp"@ + "/"@ + "update"@
}

/// The mount point for the update image: a directory named after the
/// application, under the profile's temporary directory.
pub open spec fn spec_mount_point(profile: Seq<char>, app_name: Seq<char>) -> Seq<char> {
    profile + "/"@ + "temp"@ + "/"@ + app_name
}

/// The install location: four parent levels above the running executable
/// (executable, `MacOS`, `Contents`, the bundle itself).
pub open spec fn spec_install_dir(executable_path: Seq<char>) -> Seq<char> {
    spec_parent_dir(
        spec_parent_dir(spec_parent_dir(spec_parent_dir(executable_path, '/'), '/'), '/'),
        '/',
    )
}

/// The install location derived from the running executable's path, or
/// nothing when the path has fewer than four parent levels.
pub fn get_current_install_dir(executable_path: &str) -> (r: Option<String>)
    ensures
        match r {
            Some(d) => d@ == spec_install_dir(executable_path@) && d@.len() > 0,
            None => spec_install_dir(executable_path@).len() == 0,
        },
{
    let p1 = parent_dir(executable_path, '/');
    let p2 = parent_dir(p1.as_str(), '/');
    let p3 = parent_dir(p2.as_str(), '/');
    let p4 = parent_dir(p3.as_str(), '/');
    if p4.as_str().unicode_len() == 0 {
        None
    } else {
        Some(p4)
    }
}

/// Locates the predownloaded update and resolves every path of the update
/// attempt.
///
/// The listing holds the file names in `<profile>/temp/update`. The chosen
/// disk image and checksum file are the lexicographically last candidates of
/// their extensions; a missing candidate or a missing install location fails
/// the attempt, in that order.
pub fn validate_and_install_latest_predownloaded_update(
    env: &MacUpdateEnv,
    update_dir_listing: &Vec<String>,
) -> (r: Result<MacUpdatePlan, UpdateError>)
    ensures
        match r {
            Ok(plan) => {
                &&& update_dir_listing@.contains(plan.dmg_name)
                &&& spec_has_extension(plan.dmg_name@, "dmg"@)
                &&& forall|i: int|
                    0 <= i < update_dir_listing@.len() && spec_has_extension(
                        update_dir_listing@[i]@,
                        "dmg"@,
                    ) ==> lex_le(update_dir_listing@[i]@, plan.dmg_name@)
                &&& update_dir_listing@.contains(plan.checksum_name)
                &&& spec_has_extension(plan.checksum_name@, "sha256"@)
                &&& forall|i: int|
                    0 <= i < update_dir_listing@.len() && spec_has_extension(
                        update_dir_listing@[i]@,
                        "sha256"@,
                    ) ==> lex_le(update_dir_listing@[i]@, plan.checksum_name@)
                &&& plan.dmg_path@ == spec_update_dir(env.profile_directory@) + "/"@
                    + plan.dmg_name@
                &&& plan.checksum_path@ == spec_update_dir(env.profile_directory@) + "/"@
                    + plan.checksum_name@
                &&& plan.mount_point@ == spec_mount_point(env.profile_directory@, env.app_name@)
                &&& plan.source_app@ == spec_mount_point(env.profile_directory@, env.app_name@)
                    + "/"@ + env.app_name@ + ".app"@
                &&& plan.install_dir@ == spec_install_dir(env.executable_path@)
                &&& plan.install_dir@.len() > 0
                &&& plan.installed_app@ == spec_install_dir(env.executable_path@) + "/"@
                    + env.app_name@ + ".app"@
            },
            Err(UpdateError::PayloadNotFound) => forall|i: int|
                0 <= i < update_dir_listing@.len() ==> !spec_has_extension(
                    update_dir_listing@[i]@,
                    "dmg"@,
                ),
            Err(UpdateError::ChecksumNotFound) => forall|i: int|
                0 <= i < update_dir_listing@.len() ==> !spec_has_extension(
                    update_dir_listing@[i]@,
                    "sha256"@,
                ),
            Err(UpdateError::InstallLocationNotFound) => spec_install_dir(
                env.executable_path@,
            ).len() == 0,
            _ => false,
        },
{
    let dmg_name = match select_latest_candidate(update_dir_listing, "dmg") {
        Some(n) => n,
        None => {
            return Err(UpdateError::PayloadNotFound);
        },
    };
    let checksum_name = match select_latest_candidate(update_dir_listing, "sha256") {
        Some(n) => n,
        None => {
            return Err(UpdateError::ChecksumNotFound);
        },
    };
    let install_dir = match get_current_install_dir(env.executable_path.as_str()) {
        Some(d) => d,
        None => {
            return Err(UpdateError::InstallLocationNotFound);
        },
    };
    let temp_dir = path_join(env.profile_directory.as_str(), "/", "temp");
    let update_dir = path_join(temp_dir.as_str(), "/", "update");
    let dmg_path = path_join(update_dir.as_str(), "/", dmg_name.as_str());
    let checksum_path = path_join(update_dir.as_str(), "/", checksum_name.as_str());
    let mount_point = path_join(temp_dir.as_str(), "/", env.app_name.as_str());
    let bundle_name = env.app_name.clone().concat(".app");
    let source_app = path_join(mount_point.as_str(), "/", bundle_name.as_str());
    let installed_app = path_join(install_dir.as_str(), "/", bundle_name.as_str());
    Ok(
        MacUpdatePlan {
            dmg_name,
            checksum_name,
            dmg_path,
            checksum_path,
            mount_point,
            source_app,
            install_dir,
            installed_app,
        },
    )
}

/// An external command, given by its program name and arguments.
#[derive(Debug, PartialEq, Eq)]
pub struct ToolCommand {
    pub program: String,
    pub args: Vec<String>,
}

/// One step of the installation, performed by the caller.
#[derive(Debug, PartialEq, Eq)]
pub enum InstallStep {
    /// Run the external command and wait for it; a failure aborts the
    /// remaining steps.
    RunTool(ToolCommand),
    /// Delete the directory at the path recursively; a failure aborts the
    /// remaining steps.
    RemoveDirRecursive { path: String },
}

/// Whether a step unmounts the image at the given mount point.
pub open spec fn is_umount_step(s: InstallStep, mount_point: Seq<char>) -> bool {
    &&& s matches InstallStep::RunTool(c)
    &&& c.program@ == "hdiutil"@
    &&& c.args@.len() == 4
    &&& c.args@[0]@ == "detach"@
    &&& c.args@[1]@ == mount_point
    &&& c.args@[2]@ == "-quiet"@
    &&& c.args@[3]@ == "-force"@
}

/// Whether a step mounts the image at the given mount point.
pub open spec fn is_mount_step(s: InstallStep, dmg: Seq<char>, mount_point: Seq<char>) -> bool {
    &&& s matches InstallStep::RunTool(c)
    &&& c.program@ == "hdiutil"@
    &&& c.args@.len() == 6
    &&& c.args@[0]@ == "attach"@
    &&& c.args@[1]@ == dmg
    &&& c.args@[2]@ == "-mountpoint"@
    &&& c.args@[3]@ == mount_point
    &&& c.args@[4]@ == "-nobrowse"@
    &&& c.args@[5]@ == "-quiet"@
}

/// Whether a step copies the application bundle, preserving attributes, into
/// the install directory.
pub open spec fn is_copy_step(s: InstallStep, source_app: Seq<char>, install_dir: Seq<char>) -> bool {
    &&& s matches InstallStep::RunTool(c)
    &&& c.program@ == "cp"@
    &&& c.args@.len() == 3
    &&& c.args@[0]@ == "-a"@
    &&& c.args@[1]@ == source_app
    &&& c.args@[2]@ == install_dir
}

/// Whether a step removes the directory at the given path.
pub open spec fn is_remove_step(s: InstallStep, path: Seq<char>) -> bool {
    s matches InstallStep::RemoveDirRecursive { path: p } && p@ == path
}

/// The command that unmounts the image at the given mount point.
fn umount_image_command(mount_point: &str) -> (s: InstallStep)
    ensures
        is_umount_step(s, mount_point@),
{
    let mut args: Vec<String> = Vec::new();
    args.push(String::from_str("detach"));
    args.push(String::from_str(mount_point));
    args.push(String::from_str("-quiet"));
    args.push(String::from_str("-force"));
    InstallStep::RunTool(ToolCommand { program: String::from_str("hdiutil"), args })
}

/// The command that mounts the image at the given mount point, without
/// surfacing it in the user interface.
fn mount_image_command(dmg: &str, mount_point: &str) -> (s: InstallStep)
    ensures
        is_mount_step(s, dmg@, mount_point@),
{
    let mut args: Vec<String> = Vec::new();
    args.push(String::from_str("attach"));
    args.push(String::from_str(dmg));
    args.push(String::from_str("-mountpoint"));
    args.push(String::from_str(mount_point));
    args.push(String::from_str("-nobrowse"));
    args.push(String::from_str("-quiet"));
    InstallStep::RunTool(ToolCommand { program: String::from_str("hdiutil"), args })
}

/// The command that copies the application bundle into the install
/// directory, preserving attributes and extended metadata.
fn copy_app_command(source_app: &str, install_dir: &str) -> (s: InstallStep)
    ensures
        is_copy_step(s, source_app@, install_dir@),
{
    let mut args: Vec<String> = Vec::new();
    args.push(String::from_str("-a"));
    args.push(String::from_str(source_app));
    args.push(String::from_str(install_dir));
    InstallStep::RunTool(ToolCommand { program: String::from_str("cp"), args })
}

/// Decides the installation steps of a macOS update attempt.
///
/// A failed validation short-circuits the attempt: no step is returned, so
/// no filesystem mutation happens. Otherwise the steps are, in order: an
/// unmount of a stale image when one is still mounted from an earlier
/// attempt, the mount of the image, the removal of the installed bundle, the
/// copy of the new bundle, and the unmount of the image.
pub fn macos_install_steps(
    plan: &MacUpdatePlan,
    validation: Result<(), ValidationError>,
    mount_point_exists: bool,
) -> (r: Result<Vec<InstallStep>, UpdateError>)
    ensures
        validation matches Err(e) ==> r == Err::<Vec<InstallStep>, UpdateError>(
            UpdateError::Validation(e),
        ),
        validation is Ok ==> (r matches Ok(steps) && {
            let k: int = if mount_point_exists {
                1
            } else {
                0
            };
            &&& steps@.len() == 4 + k
            &&& (mount_point_exists ==> is_umount_step(steps@[0], plan.mount_point@))
            &&& is_mount_step(steps@[k], plan.dmg_path@, plan.mount_point@)
            &&& is_remove_step(steps@[k + 1], plan.installed_app@)
            &&& is_copy_step(steps@[k + 2], plan.source_app@, plan.install_dir@)
            &&& is_umount_step(steps@[k + 3], plan.mount_point@)
        }),
{
    match validation {
        Err(e) => Err(UpdateError::Validation(e)),
        Ok(()) => {
            let mut steps: Vec<InstallStep> = Vec::new();
            if mount_point_exists {
                steps.push(umount_image_command(plan.mount_point.as_str()));
            }
            steps.push(mount_image_command(plan.dmg_path.as_str(), plan.mount_point.as_str()));
            steps.push(InstallStep::RemoveDirRecursive { path: plan.installed_app.clone() });
            steps.push(copy_app_command(plan.source_app.as_str(), plan.install_dir.as_str()));
            steps.push(umount_image_command(plan.mount_point.as_str()));
            Ok(steps)
        },
    }
}

} // verus!
