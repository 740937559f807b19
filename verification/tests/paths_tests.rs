use launcher::args::{args_contain_flag, extract_target_override, resolve_target_path, usage_line};
use launcher::errors::ConfigError;
use launcher::flavor::{determine_app_name, determine_binary_name, BuildFlavor};
use launcher::pathops::parent_dir;
use launcher::paths::{
    app_data_base_dir_with_home, get_persistent_app_data_base_dir, get_profile_directory_name,
    get_windows_appdata_dir,
};
use launcher::trim::trim;

fn args(v: &[&str]) -> Vec<String> {
    v.iter().map(|s| String::from(*s)).collect()
}

#[test]
fn flavor_names_and_app_names() {
    assert_eq!(BuildFlavor::ConsumerSandbox.name().as_str(), "consumer-sandbox");
    assert_eq!(BuildFlavor::ConsumerLive.name().as_str(), "consumer-live");
    assert_eq!(BuildFlavor::WorkSandbox.name().as_str(), "work-sandbox");
    assert_eq!(BuildFlavor::WorkLive.name().as_str(), "work-live");
    assert_eq!(BuildFlavor::WorkOnprem.name().as_str(), "work-onprem");
    assert_eq!(determine_app_name(&BuildFlavor::ConsumerSandbox).as_str(), "Threema Green Beta");
    assert_eq!(determine_app_name(&BuildFlavor::ConsumerLive).as_str(), "Threema Beta");
    assert_eq!(determine_app_name(&BuildFlavor::WorkSandbox).as_str(), "Threema Blue Beta");
    assert_eq!(determine_app_name(&BuildFlavor::WorkLive).as_str(), "Threema Work Beta");
    assert_eq!(determine_app_name(&BuildFlavor::WorkOnprem).as_str(), "Threema OnPrem Beta");
}

#[test]
fn flavor_from_name_round_trips() {
    for f in [
        BuildFlavor::ConsumerSandbox,
        BuildFlavor::ConsumerLive,
        BuildFlavor::WorkSandbox,
        BuildFlavor::WorkLive,
        BuildFlavor::WorkOnprem,
    ] {
        assert_eq!(BuildFlavor::from_name(f.name().as_str()), Some(f));
    }
    assert_eq!(BuildFlavor::from_name("consumer"), None);
    assert_eq!(BuildFlavor::from_name(""), None);
}

#[test]
fn binary_name_depends_on_os() {
    assert_eq!(determine_binary_name("windows").as_str(), "ThreemaDesktop.exe");
    assert_eq!(determine_binary_name("linux").as_str(), "ThreemaDesktop");
    assert_eq!(determine_binary_name("macos").as_str(), "ThreemaDesktop");
}

#[test]
fn profile_directory_name_defaults() {
    let a = args(&["--other", "positional"]);
    assert_eq!(
        get_profile_directory_name(&a, &BuildFlavor::WorkLive).as_str(),
        "work-live-default"
    );
    assert_eq!(
        get_profile_directory_name(&args(&[]), &BuildFlavor::ConsumerLive).as_str(),
        "consumer-live-default"
    );
}

#[test]
fn profile_directory_name_takes_override() {
    let a = args(&["--threema-profile=testing", "--other"]);
    assert_eq!(
        get_profile_directory_name(&a, &BuildFlavor::ConsumerSandbox).as_str(),
        "consumer-sandbox-testing"
    );
    // The first matching argument wins.
    let a = args(&["--threema-profile=first", "--threema-profile=second"]);
    assert_eq!(
        get_profile_directory_name(&a, &BuildFlavor::ConsumerSandbox).as_str(),
        "consumer-sandbox-first"
    );
    // Leading repetitions of the flag prefix are all removed.
    let a = args(&["--threema-profile=--threema-profile=x"]);
    assert_eq!(
        get_profile_directory_name(&a, &BuildFlavor::ConsumerSandbox).as_str(),
        "consumer-sandbox-x"
    );
}

#[test]
fn windows_appdata_requires_a_real_value() {
    assert_eq!(get_windows_appdata_dir(&None), Err(ConfigError::MissingAppData));
    assert_eq!(
        get_windows_appdata_dir(&Some(String::from("   "))),
        Err(ConfigError::MissingAppData)
    );
    assert_eq!(
        get_windows_appdata_dir(&Some(String::from("C:\\Users\\me\\AppData\\Roaming"))),
        Ok(String::from("C:\\Users\\me\\AppData\\Roaming"))
    );
}

#[test]
fn base_dir_on_xdg_systems_prefers_xdg_data_home() {
    let r = app_data_base_dir_with_home(
        "linux",
        &Some(String::from(" /data/xdg \n")),
        &None,
        &Some(String::from("/home/me")),
    );
    assert_eq!(r, Ok(String::from("/data/xdg/ThreemaDesktop")));
    // A blank value falls back to the home directory.
    let r = app_data_base_dir_with_home(
        "linux",
        &Some(String::from("  ")),
        &None,
        &Some(String::from("/home/me")),
    );
    assert_eq!(r, Ok(String::from("/home/me/.local/share/ThreemaDesktop")));
    let r = app_data_base_dir_with_home("freebsd", &None, &None, &Some(String::from("/home/me")));
    assert_eq!(r, Ok(String::from("/home/me/.local/share/ThreemaDesktop")));
    // Without a home directory the configuration is unusable.
    let r = app_data_base_dir_with_home("linux", &None, &None, &None);
    assert_eq!(r, Err(ConfigError::MissingHomeDir));
}

#[test]
fn base_dir_on_macos_uses_application_support() {
    let r = app_data_base_dir_with_home("macos", &None, &None, &Some(String::from("/Users/me")));
    assert_eq!(
        r,
        Ok(String::from("/Users/me/Library/Application Support/ThreemaDesktop"))
    );
}

#[test]
fn base_dir_on_windows_uses_appdata() {
    let r = app_data_base_dir_with_home(
        "windows",
        &None,
        &Some(String::from("C:\\Users\\me\\AppData\\Roaming")),
        &None,
    );
    assert_eq!(r, Ok(String::from("C:\\Users\\me\\AppData\\Roaming\\ThreemaDesktop")));
    let r = app_data_base_dir_with_home("windows", &None, &None, &None);
    assert_eq!(r, Err(ConfigError::MissingAppData));
}

#[test]
fn base_dir_on_unknown_systems_uses_hidden_home_dir() {
    let r = app_data_base_dir_with_home("haiku", &None, &None, &Some(String::from("/home/me")));
    assert_eq!(r, Ok(String::from("/home/me/.ThreemaDesktop")));
}

#[test]
fn base_dir_with_platform_home_matches_xdg_value() {
    // With a set XDG_DATA_HOME the home directory plays no part, so the
    // result is deterministic.
    let r = get_persistent_app_data_base_dir("linux", &Some(String::from("/data")), &None);
    assert_eq!(r, Ok(String::from("/data/ThreemaDesktop")));
}

#[test]
fn trim_removes_surrounding_whitespace() {
    assert_eq!(trim("  spaced  ").as_str(), "spaced");
    assert_eq!(trim("\t\nvalue").as_str(), "value");
    assert_eq!(trim("value").as_str(), "value");
    assert_eq!(trim("   ").as_str(), "");
    assert_eq!(trim("").as_str(), "");
    assert_eq!(trim(" a b ").as_str(), "a b");
}

#[test]
fn launcher_flags_are_detected() {
    let a = args(&["--launcher-help", "more"]);
    assert!(args_contain_flag(&a, "--launcher-help"));
    assert!(!args_contain_flag(&a, "--launcher-version"));
}

#[test]
fn target_override_is_extracted_with_its_value() {
    let a = args(&["first", "--launcher-target-bin", "/opt/bin/app", "last"]);
    let (rest, over) = extract_target_override(a);
    assert_eq!(over, Some(String::from("/opt/bin/app")));
    assert_eq!(rest, args(&["first", "last"]));
}

#[test]
fn target_override_flag_without_value_is_ignored() {
    let a = args(&["first", "--launcher-target-bin"]);
    let (rest, over) = extract_target_override(a.clone());
    assert_eq!(over, None);
    assert_eq!(rest, a);
    let b = args(&["plain"]);
    let (rest, over) = extract_target_override(b.clone());
    assert_eq!(over, None);
    assert_eq!(rest, b);
}

#[test]
fn target_path_is_resolved_next_to_the_launcher() {
    let r = resolve_target_path("/opt/threema/launcher", &None, "linux");
    assert_eq!(r, Some(String::from("/opt/threema/ThreemaDesktop")));
    let r = resolve_target_path(
        "/opt/threema/launcher",
        &Some(String::from("custom-bin")),
        "linux",
    );
    assert_eq!(r, Some(String::from("/opt/threema/custom-bin")));
    let r = resolve_target_path("C:\\Threema\\launcher.exe", &None, "windows");
    assert_eq!(r, Some(String::from("C:\\Threema\\ThreemaDesktop.exe")));
    assert_eq!(resolve_target_path("launcher", &None, "linux"), None);
}

#[test]
fn usage_line_names_the_launcher() {
    assert_eq!(
        usage_line("/opt/launcher", false).as_str(),
        "Usage: /opt/launcher [--launcher-help] [--launcher-version] [args...]"
    );
    assert_eq!(
        usage_line("launcher", true).as_str(),
        "Usage: launcher [--launcher-help] [--launcher-version] [--launcher-target-bin <path>] [args...]"
    );
}

#[test]
fn parent_dir_walks_up_one_component() {
    assert_eq!(parent_dir("/a/b/c", '/').as_str(), "/a/b");
    assert_eq!(parent_dir("/a", '/').as_str(), "");
    assert_eq!(parent_dir("a", '/').as_str(), "");
    assert_eq!(parent_dir("C:\\x\\y", '\\').as_str(), "C:\\x");
}
