use launcher::decimal::{i64_to_string, u64_to_string};
use launcher::pathops::{append_to_path, parent_dir, path_join};
use launcher::paths::get_profile_directory_name;
use launcher::flavor::BuildFlavor;
use launcher::supervisor::{decide_exit_action, handle_exit_code, renamed_profile_path, Directive, ExitAction};
use launcher::{
    EXIT_CODE_DELETE_PROFILE_AND_RESTART, EXIT_CODE_EXIT, EXIT_CODE_LAUNCHER_ERROR,
    EXIT_CODE_RENAME_PROFILE_AND_RESTART, EXIT_CODE_RESTART, EXIT_CODE_RESTART_AND_INSTALL_UPDATE,
};

#[test]
fn test_append_to_path() {
    let path = String::from("/usr/bin/cp");
    let updated_path = append_to_path(path, ".old");
    assert_eq!(updated_path.as_str(), "/usr/bin/cp.old");
}

#[test]
fn exit_code_zero_means_plain_exit() {
    assert_eq!(decide_exit_action(Some(0)), ExitAction::Exit);
    assert_eq!(handle_exit_code("/data/profile", Some(EXIT_CODE_EXIT)), Directive::ExitSuccess);
}

#[test]
fn exit_code_eight_means_restart() {
    assert_eq!(decide_exit_action(Some(8)), ExitAction::Restart);
    assert_eq!(handle_exit_code("/data/profile", Some(EXIT_CODE_RESTART)), Directive::Relaunch);
}

#[test]
fn exit_code_nine_means_delete_profile() {
    assert_eq!(decide_exit_action(Some(9)), ExitAction::DeleteProfileAndRestart);
    let d = handle_exit_code("/data/profile", Some(EXIT_CODE_DELETE_PROFILE_AND_RESTART));
    assert_eq!(
        d,
        Directive::DeleteProfileThenRelaunch { path: String::from("/data/profile") }
    );
}

#[test]
fn exit_code_ten_means_rename_profile() {
    assert_eq!(decide_exit_action(Some(10)), ExitAction::RenameProfileAndRestart);
    let d = handle_exit_code("/data/profile", Some(EXIT_CODE_RENAME_PROFILE_AND_RESTART));
    match d {
        Directive::RenameProfileThenRelaunch { from, to } => {
            assert_eq!(from.as_str(), "/data/profile");
            assert!(to.starts_with("/data/profile."));
            // Whatever the timestamp was, the rename stays within the parent
            // directory.
            assert_eq!(parent_dir(to.as_str(), '/').as_str(), "/data");
        }
        other => panic!("unexpected directive: {:?}", other),
    }
}

#[test]
fn exit_code_eleven_means_install_update() {
    assert_eq!(decide_exit_action(Some(11)), ExitAction::InstallUpdate);
    let d = handle_exit_code("/data/profile", Some(EXIT_CODE_RESTART_AND_INSTALL_UPDATE));
    assert_eq!(d, Directive::InstallUpdateThenExit);
}

#[test]
fn unexpected_exit_code_is_propagated_verbatim() {
    assert_eq!(decide_exit_action(Some(42)), ExitAction::PropagateCode(42));
    assert_eq!(decide_exit_action(Some(-3)), ExitAction::PropagateCode(-3));
    assert_eq!(decide_exit_action(Some(20)), ExitAction::PropagateCode(20));
    let d = handle_exit_code("/data/profile", Some(42));
    assert_eq!(d, Directive::ExitWithCode { code: 42 });
}

#[test]
fn missing_exit_code_is_an_error_and_never_success() {
    assert_eq!(decide_exit_action(None), ExitAction::MissingExitCode);
    let d = handle_exit_code("/data/profile", None);
    assert_eq!(d, Directive::ExitWithError { code: EXIT_CODE_LAUNCHER_ERROR });
    assert_eq!(EXIT_CODE_LAUNCHER_ERROR, 20);
    assert_ne!(EXIT_CODE_LAUNCHER_ERROR, 0);
}

#[test]
fn renamed_profile_path_appends_dot_and_timestamp() {
    let r = renamed_profile_path("/data/profiles/work-live-default", 1700000000);
    assert_eq!(r.as_str(), "/data/profiles/work-live-default.1700000000");
    // The renamed path keeps its parent directory and extends the file name.
    assert_eq!(parent_dir(r.as_str(), '/').as_str(), "/data/profiles");
    let r = renamed_profile_path("relative", -5);
    assert_eq!(r.as_str(), "relative.-5");
}

#[test]
fn decimal_rendering_is_exact() {
    assert_eq!(u64_to_string(0).as_str(), "0");
    assert_eq!(u64_to_string(7).as_str(), "7");
    assert_eq!(u64_to_string(1234567890).as_str(), "1234567890");
    assert_eq!(u64_to_string(u64::MAX).as_str(), "18446744073709551615");
    assert_eq!(i64_to_string(0).as_str(), "0");
    assert_eq!(i64_to_string(-1).as_str(), "-1");
    assert_eq!(i64_to_string(-42).as_str(), "-42");
    assert_eq!(i64_to_string(i64::MAX).as_str(), "9223372036854775807");
    assert_eq!(i64_to_string(i64::MIN).as_str(), "-9223372036854775808");
}

// The end-to-end shape of a delete-and-restart cycle: the profile directory
// is resolved once, a child exit with code nine directs exactly one deletion
// of that directory followed by a relaunch, and a failed deletion exits with
// the fixed launcher error code.
#[test]
fn delete_profile_scenario() {
    let args: Vec<String> = vec![String::from("--some-flag")];
    let name = get_profile_directory_name(&args, &BuildFlavor::ConsumerSandbox);
    assert_eq!(name.as_str(), "consumer-sandbox-default");
    let profile = path_join("/data/ThreemaDesktop", "/", name.as_str());
    assert_eq!(profile.as_str(), "/data/ThreemaDesktop/consumer-sandbox-default");
    let d = handle_exit_code(profile.as_str(), Some(9));
    assert_eq!(d, Directive::DeleteProfileThenRelaunch { path: profile.clone() });
    // After a successful deletion the child is relaunched; a further plain
    // exit ends supervision.
    assert_eq!(handle_exit_code(profile.as_str(), Some(0)), Directive::ExitSuccess);
    // If the deletion fails, the supervisor exits with the fixed error code.
    assert_eq!(EXIT_CODE_LAUNCHER_ERROR, 20);
}
