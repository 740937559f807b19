//! Resolution of the persistent profile directory.
//!
//! The base directory depends on the operating system and on environment
//! values that the caller supplies as plain strings; the home directory is
//! queried from the platform. The profile directory is the base directory
//! joined with a name formed from the build flavor and a profile override.

use vstd::prelude::*;

use crate::errors::ConfigError;
use crate::flavor::{spec_flavor_name, BuildFlavor};
use crate::strutil::str_eq;
use crate::strutil::str_starts_with;
use crate::trim::{spec_trim, trim};

verus! {

/// The view of an optional string.
pub open spec fn opt_view(o: Option<String>) -> Option<Seq<char>> {
    match o {
        Some(s) => Some(s@),
        None => None,
    }
}

/// The view of a string-or-configuration-error result.
pub open spec fn dir_result_view(r: Result<String, ConfigError>) -> Result<
    Seq<char>,
    ConfigError,
> {
    match r {
        Ok(s) => Ok(s@),
        Err(e) => Err(e),
    }
}

/// Whether the operating system identifier names a POSIX-like system that
/// follows the XDG base directory convention.
pub open spec fn spec_is_xdg_os(os: Seq<char>) -> bool {
    os == "linux"@ || os == "freebsd"@ || os == "dragonfly"@ || os == "netbsd"@ || os
        == "openbsd"@ || os == "solaris"@
}

/// The application data directory configured for Windows, when the
/// environment holds a value that is more than whitespace.
pub open spec fn spec_windows_appdata_dir(appdata: Option<Seq<char>>) -> Result<
    Seq<char>,
    ConfigError,
> {
    match appdata {
        Some(a) => if spec_trim(a).len() > 0 {
            Ok(a)
        } else {
            Err(ConfigError::MissingAppData)
        },
        None => Err(ConfigError::MissingAppData),
    }
}

/// The base directory for persistent application data:
///
/// - on XDG systems, `<XDG_DATA_HOME>/ThreemaDesktop` when that environment
///   value is more than whitespace (trimmed), else
///   `<home>/.local/share/ThreemaDesktop`;
/// - on macOS, `<home>/Library/Application Support/ThreemaDesktop`;
/// - on Windows, `<APPDATA>\ThreemaDesktop`, the environment value taken as
///   it is — a missing or all-whitespace value is a configuration error;
/// - on any other system, `<home>/.ThreemaDesktop`.
///
/// A missing home directory is a configuration error wherever it is needed.
pub open spec fn spec_app_data_base_dir(
    os: Seq<char>,
    xdg: Option<Seq<char>>,
    appdata: Option<Seq<char>>,
    home: Option<Seq<char>>,
) -> Result<Seq<char>, ConfigError> {
    if spec_is_xdg_os(os) {
        let t = match xdg {
            Some(x) => spec_trim(x),
            None => Seq::empty(),
        };
        if t.len() > 0 {
            Ok(t + "/"@ + "ThreemaDesktop"@)
        } else {
            match home {
                Some(h) => Ok(h + "/"@ + ".local"@ + "/"@ + "share"@ + "/"@ + "ThreemaDesktop"@),
                None => Err(ConfigError::MissingHomeDir),
            }
        }
    } else if os == "macos"@ {
        match home {
            Some(h) => Ok(h + "/"@ + "Library"@ + "/"@ + "Application Support"@ + "/"@
                + "ThreemaDesktop"@),
            None => Err(ConfigError::MissingHomeDir),
        }
    } else if os == "windows"@ {
        match spec_windows_appdata_dir(appdata) {
            Ok(a) => Ok(a + "\\"@ + "ThreemaDesktop"@),
            Err(e) => Err(e),
        }
    } else {
        match home {
            Some(h) => Ok(h + "/"@ + ".ThreemaDesktop"@),
            None => Err(ConfigError::MissingHomeDir),
        }
    }
}

/// Relies on `home::home_dir`: the user's home directory as the platform
/// reports it, or nothing when the platform reports none; a path that is not
/// valid Unicode counts as absent. Nothing is assumed of the value.
#[verifier::external_body]
fn query_home_dir() -> (r: Option<String>) {
    home::home_dir().and_then(|p| p.into_os_string().into_string().ok())
}

/// The application data directory configured for Windows.
///
/// The environment value is handed in by the caller; a missing or
/// all-whitespace value is a configuration error.
pub fn get_windows_appdata_dir(appdata: &Option<String>) -> (r: Result<String, ConfigError>)
    ensures
        dir_result_view(r) == spec_windows_appdata_dir(opt_view(*appdata)),
{
    match appdata {
        Some(a) => {
            let t = trim(a.as_str());
            if t.as_str().unicode_len() > 0 {
                Ok(a.clone())
            } else {
                Err(ConfigError::MissingAppData)
            }
        },
        None => Err(ConfigError::MissingAppData),
    }
}

/// Whether the operating system identifier names a POSIX-like system that
/// follows the XDG base directory convention.
fn is_xdg_os(os: &str) -> (r: bool)
    ensures
        r == spec_is_xdg_os(os@),
{
    str_eq(os, "linux") || str_eq(os, "freebsd") || str_eq(os, "dragonfly") || str_eq(os, "netbsd")
        || str_eq(os, "openbsd") || str_eq(os, "solaris")
}

/// The base directory for persistent application data, given the operating
/// system identifier, the environment's `XDG_DATA_HOME` and `APPDATA` values,
/// and the home directory.
pub fn app_data_base_dir_with_home(
    os: &str,
    xdg_data_home: &Option<String>,
    appdata: &Option<String>,
    home: &Option<String>,
) -> (r: Result<String, ConfigError>)
    ensures
        dir_result_view(r) == spec_app_data_base_dir(
            os@,
            opt_view(*xdg_data_home),
            opt_view(*appdata),
            opt_view(*home),
        ),
{
    let root = "ThreemaDesktop";
    if is_xdg_os(os) {
        let t = match xdg_data_home {
            Some(x) => trim(x.as_str()),
            None => String::new(),
        };
        if t.as_str().unicode_len() > 0 {
            let base = t.concat("/");
            Ok(base.concat(root))
        } else {
            match home {
                Some(h) => {
                    let p = h.clone().concat("/").concat(".local").concat("/").concat(
                        "share",
                    ).concat("/").concat(root);
                    Ok(p)
                },
                None => Err(ConfigError::MissingHomeDir),
            }
        }
    } else if str_eq(os, "macos") {
        match home {
            Some(h) => {
                let p = h.clone().concat("/").concat("Library").concat("/").concat(
                    "Application Support",
                ).concat("/").concat(root);
                Ok(p)
            },
            None => Err(ConfigError::MissingHomeDir),
        }
    } else if str_eq(os, "windows") {
        match get_windows_appdata_dir(appdata) {
            Ok(a) => Ok(a.concat("\\").concat(root)),
            Err(e) => Err(e),
        }
    } else {
        match home {
            Some(h) => Ok(h.clone().concat("/").concat(".ThreemaDesktop")),
            None => Err(ConfigError::MissingHomeDir),
        }
    }
}

/// The base directory for persistent application data, querying the platform
/// for the user's home directory where it is needed.
pub fn get_persistent_app_data_base_dir(
    os: &str,
    xdg_data_home: &Option<String>,
    appdata: &Option<String>,
) -> (r: Result<String, ConfigError>)
    ensures
        exists|home: Option<Seq<char>>|
            dir_result_view(r) == spec_app_data_base_dir(
                os@,
                opt_view(*xdg_data_home),
                opt_view(*appdata),
                home,
            ),
{
    let home = query_home_dir();
    let r = app_data_base_dir_with_home(os, xdg_data_home, appdata, &home);
    proof {
        let h = opt_view(home);
        assert(dir_result_view(r) == spec_app_data_base_dir(
            os@,
            opt_view(*xdg_data_home),
            opt_view(*appdata),
            h,
        ));
    }
    r
}

/// The text with every leading repetition of the prefix removed.
pub open spec fn spec_strip_prefix_rep(s: Seq<char>, p: Seq<char>) -> Seq<char>
    decreases s.len(),
{
    if p.len() > 0 && s.len() >= p.len() && s.take(p.len() as int) == p {
        spec_strip_prefix_rep(s.skip(p.len() as int), p)
    } else {
        s
    }
}

/// The profile name chosen by the arguments: the value of the first argument
/// carrying the profile flag, with every leading repetition of the flag
/// prefix removed, or `default` when no argument carries the flag.
pub open spec fn spec_profile_value(args: Seq<String>) -> Seq<char>
    decreases args.len(),
{
    if args.len() == 0 {
        "default"@
    } else if args[0]@.len() >= "--threema-profile="@.len() && args[0]@.take(
        "--threema-profile="@.len() as int,
    ) == "--threema-profile="@ {
        spec_strip_prefix_rep(args[0]@, "--threema-profile="@)
    } else {
        spec_profile_value(args.skip(1))
    }
}

/// The name of the profile directory: the build flavor's identifier, a dash,
/// and the profile name chosen by the arguments.
pub fn get_profile_directory_name(args: &Vec<String>, flavor: &BuildFlavor) -> (r: String)
    ensures
        r@ == spec_flavor_name(*flavor) + "-"@ + spec_profile_value(args@),
{
    let prefix = "--threema-profile=";
    proof {
        reveal_strlit("--threema-profile=");
    }
    let prefix_len = prefix.unicode_len();
    let n = args.len();
    let mut i: usize = 0;
    proof {
        assert(args@.skip(0) =~= args@);
    }
    while i < n
        invariant
            0 <= i <= n,
            n == args@.len(),
            prefix_len == "--threema-profile="@.len(),
            prefix_len > 0,
            prefix@ == "--threema-profile="@,
            spec_profile_value(args@) == spec_profile_value(args@.skip(i as int)),
        decreases n - i,
    {
        proof {
            assert(args@.skip(i as int)[0] == args@[i as int]);
            assert(args@.skip(i as int).skip(1) =~= args@.skip(i + 1));
        }
        if str_starts_with(args[i].as_str(), prefix) {
            let mut cur: &str = args[i].as_str();
            let mut cur_len = cur.unicode_len();
            while str_starts_with(cur, prefix)
                invariant
                    prefix_len == "--threema-profile="@.len(),
                    prefix_len > 0,
                    prefix@ == "--threema-profile="@,
                    cur_len == cur@.len(),
                    spec_strip_prefix_rep(cur@, prefix@) == spec_strip_prefix_rep(
                        args@[i as int]@,
                        prefix@,
                    ),
                decreases cur@.len(),
            {
                let ghost prev = cur@;
                cur = cur.substring_char(prefix_len, cur_len);
                cur_len = cur.unicode_len();
                proof {
                    assert(cur@ =~= prev.skip(prefix_len as int));
                }
            }
            let flavor_part = flavor.name().concat("-");
            return flavor_part.concat(cur);
        }
        i += 1;
    }
    proof {
        assert(args@.skip(n as int) =~= Seq::<String>::empty());
    }
    let flavor_part = flavor.name().concat("-");
    proof {
        reveal_strlit("default");
    }
    let d = "default";
    return flavor_part.concat(d);
}

} // verus!
