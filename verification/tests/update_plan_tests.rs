use launcher::errors::{UpdateError, ValidationError};
use launcher::update::macos::{
    get_current_install_dir, macos_install_steps, InstallStep, MacUpdateEnv,
};
use launcher::update::windows::{
    get_persistent_sandbox_app_data_base_dir, get_sandbox_aware_path_of, resolve_install_paths,
    win_install_decision, WinUpdateEnv,
};

fn names(v: &[&str]) -> Vec<String> {
    v.iter().map(|s| String::from(*s)).collect()
}

fn mac_env() -> MacUpdateEnv {
    MacUpdateEnv {
        profile_directory: String::from(
            "/Users/me/Library/Application Support/ThreemaDesktop/consumer-live-default",
        ),
        app_name: String::from("Threema Beta"),
        executable_path: String::from(
            "/Applications/Threema Beta.app/Contents/MacOS/ThreemaDesktopLauncher",
        ),
    }
}

#[test]
fn macos_plan_resolves_every_path() {
    let env = mac_env();
    let listing = names(&["update-1.0.0.dmg", "update-1.0.0.dmg.sha256"]);
    let plan = launcher::update::macos::validate_and_install_latest_predownloaded_update(
        &env, &listing,
    )
    .unwrap();
    let base = "/Users/me/Library/Application Support/ThreemaDesktop/consumer-live-default";
    assert_eq!(plan.dmg_name.as_str(), "update-1.0.0.dmg");
    assert_eq!(plan.checksum_name.as_str(), "update-1.0.0.dmg.sha256");
    assert_eq!(
        plan.dmg_path,
        format!("{base}/temp/update/update-1.0.0.dmg")
    );
    assert_eq!(
        plan.checksum_path,
        format!("{base}/temp/update/update-1.0.0.dmg.sha256")
    );
    assert_eq!(plan.mount_point, format!("{base}/temp/Threema Beta"));
    assert_eq!(
        plan.source_app,
        format!("{base}/temp/Threema Beta/Threema Beta.app")
    );
    assert_eq!(plan.install_dir.as_str(), "/Applications");
    assert_eq!(plan.installed_app.as_str(), "/Applications/Threema Beta.app");
}

#[test]
fn macos_plan_fails_without_candidates() {
    let env = mac_env();
    let r = launcher::update::macos::validate_and_install_latest_predownloaded_update(
        &env,
        &names(&["readme.txt"]),
    );
    assert_eq!(r.unwrap_err(), UpdateError::PayloadNotFound);
    let r = launcher::update::macos::validate_and_install_latest_predownloaded_update(
        &env,
        &names(&["a.dmg"]),
    );
    assert_eq!(r.unwrap_err(), UpdateError::ChecksumNotFound);
}

#[test]
fn macos_plan_fails_for_a_shallow_executable_path() {
    let mut env = mac_env();
    env.executable_path = String::from("bin/launcher");
    let listing = names(&["a.dmg", "a.dmg.sha256"]);
    let r = launcher::update::macos::validate_and_install_latest_predownloaded_update(
        &env, &listing,
    );
    assert_eq!(r.unwrap_err(), UpdateError::InstallLocationNotFound);
}

#[test]
fn install_dir_is_four_levels_up() {
    let d = get_current_install_dir("/opt/apps/Threema Beta.app/Contents/MacOS/Launcher");
    assert_eq!(d, Some(String::from("/opt/apps")));
    assert_eq!(get_current_install_dir("a/b/c/d"), None);
}

fn tool(step: &InstallStep) -> (&str, Vec<&str>) {
    match step {
        InstallStep::RunTool(c) => (
            c.program.as_str(),
            c.args.iter().map(|a| a.as_str()).collect(),
        ),
        InstallStep::RemoveDirRecursive { .. } => panic!("expected a tool command"),
    }
}

#[test]
fn macos_steps_follow_the_install_sequence() {
    let env = mac_env();
    let listing = names(&["a.dmg", "a.dmg.sha256"]);
    let plan = launcher::update::macos::validate_and_install_latest_predownloaded_update(
        &env, &listing,
    )
    .unwrap();
    let steps = macos_install_steps(&plan, Ok(()), false).unwrap();
    assert_eq!(steps.len(), 4);
    assert_eq!(
        tool(&steps[0]),
        (
            "hdiutil",
            vec![
                "attach",
                plan.dmg_path.as_str(),
                "-mountpoint",
                plan.mount_point.as_str(),
                "-nobrowse",
                "-quiet",
            ]
        )
    );
    assert_eq!(
        steps[1],
        InstallStep::RemoveDirRecursive { path: plan.installed_app.clone() }
    );
    assert_eq!(
        tool(&steps[2]),
        ("cp", vec!["-a", plan.source_app.as_str(), plan.install_dir.as_str()])
    );
    assert_eq!(
        tool(&steps[3]),
        ("hdiutil", vec!["detach", plan.mount_point.as_str(), "-quiet", "-force"])
    );
}

// A stale mount from an earlier failed attempt is unmounted first: the
// recovery path is explicit.
#[test]
fn macos_steps_unmount_a_stale_image_first() {
    let env = mac_env();
    let listing = names(&["a.dmg", "a.dmg.sha256"]);
    let plan = launcher::update::macos::validate_and_install_latest_predownloaded_update(
        &env, &listing,
    )
    .unwrap();
    let steps = macos_install_steps(&plan, Ok(()), true).unwrap();
    assert_eq!(steps.len(), 5);
    assert_eq!(
        tool(&steps[0]),
        ("hdiutil", vec!["detach", plan.mount_point.as_str(), "-quiet", "-force"])
    );
    assert_eq!(
        tool(&steps[1]),
        (
            "hdiutil",
            vec![
                "attach",
                plan.dmg_path.as_str(),
                "-mountpoint",
                plan.mount_point.as_str(),
                "-nobrowse",
                "-quiet",
            ]
        )
    );
}

#[test]
fn macos_failed_validation_short_circuits() {
    let env = mac_env();
    let listing = names(&["a.dmg", "a.dmg.sha256"]);
    let plan = launcher::update::macos::validate_and_install_latest_predownloaded_update(
        &env, &listing,
    )
    .unwrap();
    let r = macos_install_steps(&plan, Err(ValidationError::HashMismatch), false);
    assert_eq!(
        r.unwrap_err(),
        UpdateError::Validation(ValidationError::HashMismatch)
    );
}

fn win_env(sandbox: Option<&str>) -> WinUpdateEnv {
    WinUpdateEnv {
        profile_directory: String::from(
            "C:\\Users\\me\\AppData\\Roaming\\ThreemaDesktop\\consumer-live-default",
        ),
        appdata_dir: String::from("C:\\Users\\me\\AppData\\Roaming"),
        sandbox_cache_dir: sandbox.map(String::from),
    }
}

#[test]
fn windows_candidates_and_sandbox_remap() {
    let env = win_env(Some("C:\\Users\\me\\AppData\\Local\\Packages\\Threema\\LocalCache"));
    let listing = names(&["update-1.0.0.msix", "update-1.0.0.msix.sha256"]);
    let c = launcher::update::windows::validate_and_install_latest_predownloaded_update(
        &env, &listing,
    )
    .unwrap();
    let dir = "C:\\Users\\me\\AppData\\Roaming\\ThreemaDesktop\\consumer-live-default\\temp\\update";
    assert_eq!(c.msix_path, format!("{dir}\\update-1.0.0.msix"));
    assert_eq!(c.checksum_path, format!("{dir}\\update-1.0.0.msix.sha256"));
    let sandbox_dir = "C:\\Users\\me\\AppData\\Local\\Packages\\Threema\\LocalCache\\Roaming\\ThreemaDesktop\\consumer-live-default\\temp\\update";
    assert_eq!(
        c.sandboxed_msix_path,
        Some(format!("{sandbox_dir}\\update-1.0.0.msix"))
    );
    assert_eq!(
        c.sandboxed_checksum_path,
        Some(format!("{sandbox_dir}\\update-1.0.0.msix.sha256"))
    );
}

#[test]
fn windows_candidates_without_sandbox() {
    let env = win_env(None);
    let listing = names(&["u.msix", "u.msix.sha256"]);
    let c = launcher::update::windows::validate_and_install_latest_predownloaded_update(
        &env, &listing,
    )
    .unwrap();
    assert_eq!(c.sandboxed_msix_path, None);
    assert_eq!(c.sandboxed_checksum_path, None);
}

#[test]
fn windows_profile_outside_appdata_has_no_remap() {
    let mut env = win_env(Some("C:\\Cache"));
    env.profile_directory = String::from("D:\\Elsewhere\\profile");
    let listing = names(&["u.msix", "u.msix.sha256"]);
    let c = launcher::update::windows::validate_and_install_latest_predownloaded_update(
        &env, &listing,
    )
    .unwrap();
    assert_eq!(c.sandboxed_msix_path, None);
    assert_eq!(c.sandboxed_checksum_path, None);
}

#[test]
fn windows_missing_candidates_fail() {
    let env = win_env(None);
    let r = launcher::update::windows::validate_and_install_latest_predownloaded_update(
        &env,
        &names(&[]),
    );
    assert_eq!(r.unwrap_err(), UpdateError::PayloadNotFound);
    let r = launcher::update::windows::validate_and_install_latest_predownloaded_update(
        &env,
        &names(&["u.msix"]),
    );
    assert_eq!(r.unwrap_err(), UpdateError::ChecksumNotFound);
}

#[test]
fn sandbox_base_dir_appends_roaming() {
    assert_eq!(
        get_persistent_sandbox_app_data_base_dir("C:\\Cache").as_str(),
        "C:\\Cache\\Roaming"
    );
}

#[test]
fn sandbox_aware_path_substitutes_the_root() {
    let r = get_sandbox_aware_path_of(
        "C:\\Users\\me\\AppData\\Roaming\\ThreemaDesktop\\f.msix",
        "C:\\Users\\me\\AppData\\Roaming",
        "C:\\Cache\\Roaming",
    );
    assert_eq!(r, Some(String::from("C:\\Cache\\Roaming\\ThreemaDesktop\\f.msix")));
    // A path not below the root has no counterpart.
    let r = get_sandbox_aware_path_of("D:\\other\\f.msix", "C:\\Users\\me\\AppData\\Roaming", "C:\\Cache");
    assert_eq!(r, None);
    // The root itself is not strictly below the root.
    let r = get_sandbox_aware_path_of(
        "C:\\Users\\me\\AppData\\Roaming",
        "C:\\Users\\me\\AppData\\Roaming",
        "C:\\Cache",
    );
    assert_eq!(r, None);
}

#[test]
fn resolved_paths_prefer_existing_sandbox_files() {
    let env = win_env(Some("C:\\Cache"));
    let listing = names(&["u.msix", "u.msix.sha256"]);
    let c = launcher::update::windows::validate_and_install_latest_predownloaded_update(
        &env, &listing,
    )
    .unwrap();
    let sandboxed = resolve_install_paths(&c, true);
    assert_eq!(Some(sandboxed.msix_path), c.sandboxed_msix_path);
    assert_eq!(Some(sandboxed.checksum_path), c.sandboxed_checksum_path);
    let plain = resolve_install_paths(&c, false);
    assert_eq!(plain.msix_path, c.msix_path);
    assert_eq!(plain.checksum_path, c.checksum_path);
}

#[test]
fn windows_registration_forces_shutdown_and_restart() {
    let reg = win_install_decision("C:\\Cache\\u.msix", Ok(())).unwrap();
    assert_eq!(reg.package_path.as_str(), "C:\\Cache\\u.msix");
    assert!(reg.force_app_shutdown);
    assert!(reg.restart_requested);
}

#[test]
fn windows_failed_validation_short_circuits() {
    let r = win_install_decision("C:\\u.msix", Err(ValidationError::MalformedChecksumFile));
    assert_eq!(
        r.unwrap_err(),
        UpdateError::Validation(ValidationError::MalformedChecksumFile)
    );
}
