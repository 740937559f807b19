//! The exit-code-driven supervision state machine.
//!
//! The supervised application signals a command through its exit code. The
//! supervisor maps that code — or its absence, when the child was killed
//! without one — to exactly one directive: exit, relaunch, delete or rename
//! the profile directory and relaunch, install a predownloaded update, or
//! propagate the code. No directive carries more than the one named
//! filesystem action.

use vstd::prelude::*;

use crate::decimal::{i64_to_string, spec_idec, spec_udec};
use crate::pathops::{append_to_path, file_name_of, lemma_append_keeps_parent, parent_of};
use crate::{
    EXIT_CODE_DELETE_PROFILE_AND_RESTART,
    EXIT_CODE_EXIT,
    EXIT_CODE_LAUNCHER_ERROR,
    EXIT_CODE_RENAME_PROFILE_AND_RESTART,
    EXIT_CODE_RESTART,
    EXIT_CODE_RESTART_AND_INSTALL_UPDATE,
};

verus! {

/// The action the supervisor takes for a child exit.
#[derive(Clone, Copy, Debug, PartialEq, Eq, Structural)]
pub enum ExitAction {
    /// The child exited normally; the supervisor terminates with success.
    Exit,
    /// Relaunch the child unchanged.
    Restart,
    /// Delete the profile directory recursively, then relaunch.
    DeleteProfileAndRestart,
    /// Rename the profile directory aside, then relaunch.
    RenameProfileAndRestart,
    /// Install the predownloaded update, then terminate.
    InstallUpdate,
    /// Exit with the child's own exit code, unchanged.
    PropagateCode(i32),
    /// The child left no exit code; exit with the launcher's error code.
    MissingExitCode,
}

/// The supervision table: the action taken for each exit code.
pub open spec fn spec_exit_action(exit_code: Option<i32>) -> ExitAction {
    match exit_code {
        Some(c) => if c == EXIT_CODE_EXIT {
            ExitAction::Exit
        } else if c == EXIT_CODE_RESTART {
            ExitAction::Restart
        } else if c == EXIT_CODE_DELETE_PROFILE_AND_RESTART {
            ExitAction::DeleteProfileAndRestart
        } else if c == EXIT_CODE_RENAME_PROFILE_AND_RESTART {
            ExitAction::RenameProfileAndRestart
        } else if c == EXIT_CODE_RESTART_AND_INSTALL_UPDATE {
            ExitAction::InstallUpdate
        } else {
            ExitAction::PropagateCode(c)
        },
        None => ExitAction::MissingExitCode,
    }
}

/// Maps a child's exit code to the supervisor's action, exactly following
/// the supervision table.
pub fn decide_exit_action(exit_code: Option<i32>) -> (a: ExitAction)
    ensures
        a == spec_exit_action(exit_code),
{
    match exit_code {
        Some(c) => {
            if c == EXIT_CODE_EXIT {
                ExitAction::Exit
            } else if c == EXIT_CODE_RESTART {
                ExitAction::Restart
            } else if c == EXIT_CODE_DELETE_PROFILE_AND_RESTART {
                ExitAction::DeleteProfileAndRestart
            } else if c == EXIT_CODE_RENAME_PROFILE_AND_RESTART {
                ExitAction::RenameProfileAndRestart
            } else if c == EXIT_CODE_RESTART_AND_INSTALL_UPDATE {
                ExitAction::InstallUpdate
            } else {
                ExitAction::PropagateCode(c)
            }
        },
        None => ExitAction::MissingExitCode,
    }
}

/// For every exit code in the supervision table the supervisor takes exactly
/// the listed action and no other; every other code is propagated unchanged;
/// a missing exit code is reported as such and never mistaken for success.
pub proof fn lemma_exit_code_table()
    ensures
        spec_exit_action(Some(0)) == ExitAction::Exit,
        spec_exit_action(Some(8)) == ExitAction::Restart,
        spec_exit_action(Some(9)) == ExitAction::DeleteProfileAndRestart,
        spec_exit_action(Some(10)) == ExitAction::RenameProfileAndRestart,
        spec_exit_action(Some(11)) == ExitAction::InstallUpdate,
        forall|c: i32|
            c != 0 && c != 8 && c != 9 && c != 10 && c != 11 ==> spec_exit_action(Some(c))
                == ExitAction::PropagateCode(c),
        spec_exit_action(None) == ExitAction::MissingExitCode,
        EXIT_CODE_LAUNCHER_ERROR != 0,
{
}

/// One directive for the caller running the supervision loop. Each directive
/// names at most one filesystem action.
#[derive(Debug, PartialEq, Eq)]
pub enum Directive {
    /// Terminate with success.
    ExitSuccess,
    /// Launch the child again, unchanged.
    Relaunch,
    /// Delete the directory at `path` recursively, then relaunch; if the
    /// deletion fails, terminate with the launcher's error code.
    DeleteProfileThenRelaunch { path: String },
    /// Rename the directory at `from` to `to`, then relaunch; if the rename
    /// fails, terminate with the launcher's error code.
    RenameProfileThenRelaunch { from: String, to: String },
    /// Install the predownloaded update; terminate either way, with success
    /// or with the launcher's error code.
    InstallUpdateThenExit,
    /// Terminate with the child's own exit code.
    ExitWithCode { code: i32 },
    /// The child left no exit code: report it and terminate with the
    /// launcher's error code.
    ExitWithError { code: i32 },
}

/// The profile path renamed aside: the original path with a dot and the
/// given timestamp appended.
pub fn renamed_profile_path(path: &str, unix_timestamp: i64) -> (r: String)
    ensures
        r@ == path@ + seq!['.'] + spec_idec(unix_timestamp as int),
{
    proof {
        reveal_strlit(".");
    }
    let suffix = String::from_str(".").concat(i64_to_string(unix_timestamp).as_str());
    proof {
        assert("."@ =~= seq!['.']);
    }
    let r = append_to_path(String::from_str(path), suffix.as_str());
    proof {
        assert(r@ =~= path@ + seq!['.'] + spec_idec(unix_timestamp as int));
    }
    r
}

/// Relies on `time::OffsetDateTime::now_utc` and its `unix_timestamp`: the
/// current time in seconds since the Unix epoch. Nothing is assumed of the
/// value.
#[verifier::external_body]
fn current_unix_timestamp() -> (r: i64) {
    time::OffsetDateTime::now_utc().unix_timestamp()
}

/// Maps a child exit to the directive of the supervision table. For a rename
/// the target carries the Unix timestamp at which the decision was taken.
pub fn handle_exit_code(profile_directory: &str, exit_code: Option<i32>) -> (d: Directive)
    ensures
        exit_code == Some(EXIT_CODE_EXIT) ==> d == Directive::ExitSuccess,
        exit_code == Some(EXIT_CODE_RESTART) ==> d == Directive::Relaunch,
        exit_code == Some(EXIT_CODE_DELETE_PROFILE_AND_RESTART) ==> (d matches
            Directive::DeleteProfileThenRelaunch { path } && path@ == profile_directory@),
        exit_code == Some(EXIT_CODE_RENAME_PROFILE_AND_RESTART) ==> (d matches
            Directive::RenameProfileThenRelaunch { from, to } && from@ == profile_directory@
            && exists|ts: i64| to@ == profile_directory@ + seq!['.'] + spec_idec(ts as int)),
        exit_code == Some(EXIT_CODE_RESTART_AND_INSTALL_UPDATE) ==> d
            == Directive::InstallUpdateThenExit,
        spec_exit_action(exit_code) matches ExitAction::PropagateCode(c) ==> d == (
        Directive::ExitWithCode { code: c }),
        exit_code is None ==> d == (Directive::ExitWithError { code: EXIT_CODE_LAUNCHER_ERROR }),
{
    match decide_exit_action(exit_code) {
        ExitAction::Exit => Directive::ExitSuccess,
        ExitAction::Restart => Directive::Relaunch,
        ExitAction::DeleteProfileAndRestart => Directive::DeleteProfileThenRelaunch {
            path: String::from_str(profile_directory),
        },
        ExitAction::RenameProfileAndRestart => {
            let ts = current_unix_timestamp();
            let to = renamed_profile_path(profile_directory, ts);
            Directive::RenameProfileThenRelaunch {
                from: String::from_str(profile_directory),
                to,
            }
        },
        ExitAction::InstallUpdate => Directive::InstallUpdateThenExit,
        ExitAction::PropagateCode(c) => Directive::ExitWithCode { code: c },
        ExitAction::MissingExitCode => Directive::ExitWithError { code: EXIT_CODE_LAUNCHER_ERROR },
    }
}

/// Whether a character is a decimal digit.
pub open spec fn is_dec_digit_char(c: char) -> bool {
    ('0' as u32) <= (c as u32) && (c as u32) <= ('9' as u32)
}

/// Every character of a nonnegative decimal rendering is a decimal digit.
proof fn lemma_udec_chars(n: int)
    requires
        n >= 0,
    ensures
        forall|i: int| 0 <= i < spec_udec(n).len() ==> is_dec_digit_char(spec_udec(n)[i]),
    decreases n,
{
    if n >= 10 {
        lemma_udec_chars(n / 10);
        let s = spec_udec(n);
        let q = spec_udec(n / 10);
        assert forall|i: int| 0 <= i < s.len() implies is_dec_digit_char(s[i]) by {
            if i < q.len() {
                assert(s[i] == q[i]);
            } else {
                assert(s[i] == crate::decimal::dec_char(n % 10));
            }
        }
    }
}

/// Every character of a signed decimal rendering is a decimal digit or the
/// minus sign.
proof fn lemma_idec_chars(n: int)
    ensures
        forall|i: int|
            0 <= i < spec_idec(n).len() ==> is_dec_digit_char(spec_idec(n)[i]) || spec_idec(n)[i]
                == '-',
{
    if n < 0 {
        lemma_udec_chars(-n);
        let s = spec_idec(n);
        let m = spec_udec(-n);
        assert forall|i: int|
            0 <= i < s.len() implies is_dec_digit_char(s[i]) || s[i] == '-' by {
            if i > 0 {
                assert(s[i] == m[i - 1]);
            }
        }
    } else {
        lemma_udec_chars(n);
    }
}

/// Renaming the profile directory aside keeps its parent directory: the
/// renamed path lies in the same directory, under the original file name
/// with `.<timestamp>` appended.
pub proof fn lemma_renamed_path_keeps_parent(path: Seq<char>, unix_timestamp: int, sep: char)
    requires
        sep == '/' || sep == '\\',
    ensures
        parent_of(path + seq!['.'] + spec_idec(unix_timestamp), sep) == parent_of(path, sep),
        file_name_of(path + seq!['.'] + spec_idec(unix_timestamp), sep) == file_name_of(path, sep)
            + seq!['.'] + spec_idec(unix_timestamp),
{
    let suffix = seq!['.'] + spec_idec(unix_timestamp);
    lemma_idec_chars(unix_timestamp);
    assert forall|i: int| 0 <= i < suffix.len() implies suffix[i] != sep by {
        if i > 0 {
            assert(suffix[i] == spec_idec(unix_timestamp)[i - 1]);
        }
    }
    lemma_append_keeps_parent(path, suffix, sep);
    assert(path + seq!['.'] + spec_idec(unix_timestamp) =~= path + suffix);
    assert(file_name_of(path, sep) + seq!['.'] + spec_idec(unix_timestamp) =~= file_name_of(
        path,
        sep,
    ) + suffix);
}

} // verus!
