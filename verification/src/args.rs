//! Verified handling of the launcher's command line.

use vstd::prelude::*;

use crate::flavor::determine_binary_name;
use crate::pathops::{parent_dir, path_join, spec_parent_dir};
use crate::strutil::str_eq;

verus! {

/// Whether some argument equals the given flag.
pub fn args_contain_flag(args: &Vec<String>, flag: &str) -> (r: bool)
    ensures
        r == exists|i: int| 0 <= i < args@.len() && args@[i]@ == flag@,
{
    let n = args.len();
    let mut i: usize = 0;
    while i < n
        invariant
            0 <= i <= n,
            n == args@.len(),
            forall|j: int| 0 <= j < i ==> args@[j]@ != flag@,
        decreases n - i,
    {
        if str_eq(args[i].as_str(), flag) {
            return true;
        }
        i += 1;
    }
    false
}

/// Removes the first `--launcher-target-bin <path>` pair from the arguments
/// and hands the path back beside them.
///
/// A flag in the last position has no path after it; it is then left in
/// place and no override is returned, as if it had not been given.
pub fn extract_target_override(args: Vec<String>) -> (r: (Vec<String>, Option<String>))
    ensures
        match r.1 {
            Some(v) => exists|i: int|
                {
                    &&& 0 <= i < args@.len() - 1
                    &&& args@[i]@ == "--launcher-target-bin"@
                    &&& (forall|j: int| 0 <= j < i ==> args@[j]@ != "--launcher-target-bin"@)
                    &&& v@ == args@[i + 1]@
                    &&& r.0@ == args@.take(i) + args@.skip(i + 2)
                },
            None => r.0@ == args@ && (forall|i: int|
                0 <= i < args@.len() && args@[i]@ == "--launcher-target-bin"@ ==> i == args@.len()
                    - 1),
        },
{
    let flag = "--launcher-target-bin";
    let n = args.len();
    let mut i: usize = 0;
    while i < n
        invariant
            0 <= i <= n,
            n == args@.len(),
            flag@ == "--launcher-target-bin"@,
            forall|j: int| 0 <= j < i ==> args@[j]@ != "--launcher-target-bin"@,
        decreases n - i,
    {
        if str_eq(args[i].as_str(), flag) {
            if i + 1 < n {
                let mut out = args;
                out.remove(i);
                let value = out.remove(i);
                proof {
                    assert(args@.remove(i as int).remove(i as int) =~= args@.take(i as int)
                        + args@.skip(i + 2));
                    assert(args@.remove(i as int)[i as int] == args@[i + 1]);
                }
                return (out, Some(value));
            } else {
                return (args, None);
            }
        }
        i += 1;
    }
    (args, None)
}

/// The usage line printed for the help flag.
pub fn usage_line(launcher_path: &str, allow_path_override: bool) -> (r: String)
    ensures
        allow_path_override ==> r@ == "Usage: "@ + launcher_path@
            + " [--launcher-help] [--launcher-version] [--launcher-target-bin <path>] [args...]"@,
        !allow_path_override ==> r@ == "Usage: "@ + launcher_path@
            + " [--launcher-help] [--launcher-version] [args...]"@,
{
    let head = String::from_str("Usage: ").concat(launcher_path);
    if allow_path_override {
        head.concat(" [--launcher-help] [--launcher-version] [--launcher-target-bin <path>] [args...]")
    } else {
        head.concat(" [--launcher-help] [--launcher-version] [args...]")
    }
}

/// The path separator of the operating system.
pub open spec fn spec_path_sep(os: Seq<char>) -> char {
    if os == "windows"@ {
        '\\'
    } else {
        '/'
    }
}

/// The path of the binary to supervise: the directory of the running
/// executable joined with the override, or with the conventional binary name
/// when no override is given. An executable path without a directory yields
/// nothing.
pub fn resolve_target_path(executable_path: &str, target_override: &Option<String>, os: &str) -> (r:
    Option<String>)
    ensures
        match r {
            Some(p) => {
                &&& spec_parent_dir(executable_path@, spec_path_sep(os@)).len() > 0
                &&& p@ == spec_parent_dir(executable_path@, spec_path_sep(os@)) + seq![
                    spec_path_sep(os@),
                ] + (match target_override {
                    Some(o) => o@,
                    None => if os@ == "windows"@ {
                        "ThreemaDesktop.exe"@
                    } else {
                        "ThreemaDesktop"@
                    },
                })
            },
            None => spec_parent_dir(executable_path@, spec_path_sep(os@)).len() == 0,
        },
{
    let is_windows = str_eq(os, "windows");
    let sep: char = if is_windows {
        '\\'
    } else {
        '/'
    };
    let sep_str: &str = if is_windows {
        "\\"
    } else {
        "/"
    };
    proof {
        reveal_strlit("\\");
        reveal_strlit("/");
        assert(sep_str@ =~= seq![spec_path_sep(os@)]);
    }
    let dir = parent_dir(executable_path, sep);
    if dir.as_str().unicode_len() == 0 {
        return None;
    }
    let name = match target_override {
        Some(o) => o.clone(),
        None => determine_binary_name(os),
    };
    Some(path_join(dir.as_str(), sep_str, name.as_str()))
}

} // verus!
