//! A desktop-application launcher and supervisor.
//!
//! The library starts from one idea: the supervised application commands its
//! own launcher through its exit code — exit, restart, wipe the profile and
//! restart, rename the profile and restart, or install a predownloaded
//! update. Everything that decides — the exit-code state machine, profile
//! path resolution, update candidate selection, checksum validation and
//! install planning — lives here, verified; a thin binary around the library
//! performs the process and filesystem work those decisions direct.

pub mod args;
pub mod checksum;
pub mod decimal;
pub mod errors;
pub mod flavor;
pub mod pathops;
pub mod paths;
pub mod strutil;
pub mod supervisor;
pub mod trim;
pub mod update;

use vstd::prelude::*;

verus! {

/// Exit code with which the supervised application signals a plain, successful exit.
pub const EXIT_CODE_EXIT: i32 = 0;

/// Exit code with which the supervised application requests a relaunch.
pub const EXIT_CODE_RESTART: i32 = 8;

/// Exit code requesting that the profile directory be deleted before a relaunch.
pub const EXIT_CODE_DELETE_PROFILE_AND_RESTART: i32 = 9;

/// Exit code requesting that the profile directory be renamed before a relaunch.
pub const EXIT_CODE_RENAME_PROFILE_AND_RESTART: i32 = 10;

/// Exit code requesting installation of a predownloaded update.
pub const EXIT_CODE_RESTART_AND_INSTALL_UPDATE: i32 = 11;

/// Exit code used by the launcher itself for any internal error.
pub const EXIT_CODE_LAUNCHER_ERROR: i32 = 20;

} // verus!
