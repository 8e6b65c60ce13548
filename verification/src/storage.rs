//! Where the vault is kept, and how its file is replaced.
//!
//! The sealed vault is the single source of truth for a user's seeds, so its
//! file is never written in place: the new contents go to a sibling temporary
//! file, are flushed, and only then take the place of the old ones.

use crate::text::{decimal, decimal_text, law_decimal_text_is_injective};
use vstd::prelude::*;
use vstd::string::*;

verus! {

/// Permission bits of the vault file: its owner reads and writes it, nobody else.
pub const PRIVATE_FILE_MODE: u32 = 0o600;

/// Permission bits of the data directory.
pub const PRIVATE_DIR_MODE: u32 = 0o700;

/// An operating system, as far as directory conventions go.
#[derive(Clone, Copy, Debug, PartialEq, Eq, Structural)]
pub enum Platform {
    MacOs,
    Windows,
    Linux,
    Other,
}

/// The environment variables that name a user's directories, as far as set.
#[derive(Clone, Debug, PartialEq, Eq)]
pub struct UserDirs {
    pub home: Option<String>,
    pub app_data: Option<String>,
    pub xdg_data_home: Option<String>,
}

/// A directory: `folder` inside `base`, or the current one.
#[derive(Clone, Debug, PartialEq, Eq)]
pub enum DataDir {
    Inside { base: String, folder: &'static str },
    Current,
}

impl DataDir {
    /// Whether this is `folder` inside the directory that `base` names.
    pub open spec fn is_inside(self, base: Seq<char>, folder: Seq<char>) -> bool {
        self matches DataDir::Inside { base: b, folder: f } && b@ == base && f@ == folder
    }
}

/// The directory of the vault, by the conventions of the platform; the current
/// one where the environment names none.
pub fn data_dir(platform: Platform, dirs: UserDirs) -> (dir: DataDir)
    ensures
        match (platform, dirs.home, dirs.app_data, dirs.xdg_data_home) {
            (Platform::MacOs, Some(home), _, _) => dir.is_inside(
                home@,
                "Library/Application Support/3FA"@,
            ),
            (Platform::Windows, _, Some(app_data), _) => dir.is_inside(app_data@, "3FA"@),
            (Platform::Linux, _, _, Some(xdg)) => dir.is_inside(xdg@, "3fa"@),
            (Platform::Linux, Some(home), _, None) => dir.is_inside(home@, ".local/share/3fa"@),
            _ => dir is Current,
        },
{
    match platform {
        Platform::MacOs => match dirs.home {
            Some(base) => DataDir::Inside { base, folder: "Library/Application Support/3FA" },
            None => DataDir::Current,
        },
        Platform::Windows => match dirs.app_data {
            Some(base) => DataDir::Inside { base, folder: "3FA" },
            None => DataDir::Current,
        },
        Platform::Linux => match dirs.xdg_data_home {
            Some(base) => DataDir::Inside { base, folder: "3fa" },
            None => match dirs.home {
                Some(base) => DataDir::Inside { base, folder: ".local/share/3fa" },
                None => DataDir::Current,
            },
        },
        Platform::Other => DataDir::Current,
    }
}

/// The name of the temporary file that process `pid` writes beside a file.
pub open spec fn temp_name_text(file_name: Seq<char>, pid: u32) -> Seq<char> {
    "."@ + file_name + ".tmp-"@ + decimal_text(pid as nat)
}

/// The name of the temporary file that process `pid` writes beside a file of
/// this name; a path without a usable name counts as `vault`.
pub fn temp_file_name(file_name: Option<&str>, pid: u32) -> (name: String)
    ensures
        name@ == temp_name_text(
            match file_name {
                Some(file_name) => file_name@,
                None => "vault"@,
            },
            pid,
        ),
        name@ == "."@ + (match file_name {
            Some(file_name) => file_name@,
            None => "vault"@,
        }) + ".tmp-"@ + decimal_text(pid as nat),
{
    let file_name: &str = match file_name {
        Some(file_name) => file_name,
        None => "vault",
    };
    ".".to_owned().concat(file_name).concat(".tmp-").concat(decimal(pid as u64).as_str())
}

/// The temporary file is never the file itself.
pub proof fn law_the_temporary_file_is_another_file(file_name: Seq<char>, pid: u32)
    ensures
        temp_name_text(file_name, pid) != file_name,
{
    reveal_strlit(".");
    assert(temp_name_text(file_name, pid).len() > file_name.len());
}

/// Two processes never write the same temporary file beside one file.
pub proof fn law_processes_do_not_collide(file_name: Seq<char>, a: u32, b: u32)
    requires
        temp_name_text(file_name, a) == temp_name_text(file_name, b),
    ensures
        a == b,
{
    let stem = "."@ + file_name + ".tmp-"@;
    assert(temp_name_text(file_name, a).skip(stem.len() as int) =~= decimal_text(a as nat));
    assert(temp_name_text(file_name, b).skip(stem.len() as int) =~= decimal_text(b as nat));
    law_decimal_text_is_injective(a as nat, b as nat);
}

/// What replacing a file does next.
#[derive(Clone, Copy, Debug, PartialEq, Eq, Structural)]
pub enum WriteStep {
    /// Open the temporary file, created private or emptied.
    OpenTemp,
    /// Make the temporary file private; it may be a leftover of a crash.
    RestrictTemp,
    /// Write all bytes to the temporary file.
    WriteTemp,
    /// Flush the temporary file to the disk.
    SyncTemp,
    /// Rename the temporary file over the target.
    ReplaceTarget,
    /// Remove the temporary file; the first error stands.
    RemoveTemp,
    /// The target holds the new bytes.
    Done,
    /// The target is as it was.
    Failed,
}

/// The step after `step`, which succeeded or not. `unix` says whether files have
/// permission bits to restrict.
pub open spec fn next_write_step(unix: bool, step: WriteStep, succeeded: bool) -> WriteStep {
    if succeeded {
        match step {
            WriteStep::OpenTemp => if unix {
                WriteStep::RestrictTemp
            } else {
                WriteStep::WriteTemp
            },
            WriteStep::RestrictTemp => WriteStep::WriteTemp,
            WriteStep::WriteTemp => WriteStep::SyncTemp,
            WriteStep::SyncTemp => WriteStep::ReplaceTarget,
            WriteStep::ReplaceTarget | WriteStep::Done => WriteStep::Done,
            WriteStep::RemoveTemp | WriteStep::Failed => WriteStep::Failed,
        }
    } else {
        match step {
            WriteStep::ReplaceTarget | WriteStep::RemoveTemp | WriteStep::Failed => {
                WriteStep::Failed
            },
            WriteStep::Done => WriteStep::Done,
            _ => WriteStep::RemoveTemp,
        }
    }
}

/// The error that a failed replacement reports: the first one, whatever went wrong
/// while cleaning up after it.
pub fn keep_first<E>(first: Option<E>, error: E) -> (kept: E)
    ensures
        kept == (match first {
            Some(first) => first,
            None => error,
        }),
{
    match first {
        Some(first) => first,
        None => error,
    }
}

impl WriteStep {
    /// The step that replacing a file begins with.
    pub fn first() -> (step: WriteStep)
        ensures
            step == WriteStep::OpenTemp,
    {
        WriteStep::OpenTemp
    }

    /// The step after this one, which succeeded or not.
    pub fn next(self, unix: bool, succeeded: bool) -> (step: WriteStep)
        ensures
            step == next_write_step(unix, self, succeeded),
    {
        match self {
            WriteStep::OpenTemp => {
                if !succeeded {
                    WriteStep::RemoveTemp
                } else if unix {
                    WriteStep::RestrictTemp
                } else {
                    WriteStep::WriteTemp
                }
            },
            WriteStep::RestrictTemp => {
                if succeeded {
                    WriteStep::WriteTemp
                } else {
                    WriteStep::RemoveTemp
                }
            },
            WriteStep::WriteTemp => {
                if succeeded {
                    WriteStep::SyncTemp
                } else {
                    WriteStep::RemoveTemp
                }
            },
            WriteStep::SyncTemp => {
                if succeeded {
                    WriteStep::ReplaceTarget
                } else {
                    WriteStep::RemoveTemp
                }
            },
            WriteStep::ReplaceTarget => {
                if succeeded {
                    WriteStep::Done
                } else {
                    WriteStep::Failed
                }
            },
            WriteStep::RemoveTemp => WriteStep::Failed,
            WriteStep::Done => WriteStep::Done,
            WriteStep::Failed => WriteStep::Failed,
        }
    }
}

/// A directory is inside what it says, and the current one is inside nothing.
pub proof fn law_a_directory_is_where_it_says(
    dir: DataDir,
    base: Seq<char>,
    folder: Seq<char>,
)
    ensures
        match dir {
            DataDir::Inside { base: b, folder: f } => dir.is_inside(base, folder) <==> b@ == base
                && f@ == folder,
            DataDir::Current => !dir.is_inside(base, folder),
        },
{
}

/// The temporary name is hidden, begins with the name of the file and ends in the
/// number of the process.
pub proof fn law_the_temporary_name_tells_file_and_process(file_name: Seq<char>, pid: u32)
    ensures
        temp_name_text(file_name, pid) == "."@ + file_name + ".tmp-"@ + decimal_text(pid as nat),
{
}

/// Replacing a file that goes well: the temporary file is opened, made private where
/// files have permission bits, written, flushed and renamed, each step on the
/// success of the one before, and then the file is replaced.
pub proof fn law_an_attempt_that_goes_well_replaces_the_file(unix: bool)
    ensures
        next_write_step(true, WriteStep::OpenTemp, true) == WriteStep::RestrictTemp,
        next_write_step(false, WriteStep::OpenTemp, true) == WriteStep::WriteTemp,
        next_write_step(unix, WriteStep::RestrictTemp, true) == WriteStep::WriteTemp,
        next_write_step(unix, WriteStep::WriteTemp, true) == WriteStep::SyncTemp,
        next_write_step(unix, WriteStep::SyncTemp, true) == WriteStep::ReplaceTarget,
        next_write_step(unix, WriteStep::ReplaceTarget, true) == WriteStep::Done,
{
}

/// Replacing a file that fails: whatever fails before the rename has the temporary
/// file removed, and that, gone or not, or a rename that fails, is the end of it.
pub proof fn law_an_attempt_that_fails_is_over(unix: bool, step: WriteStep, removed: bool)
    ensures
        step == WriteStep::OpenTemp || step == WriteStep::RestrictTemp || step
            == WriteStep::WriteTemp || step == WriteStep::SyncTemp ==> next_write_step(
            unix,
            step,
            false,
        ) == WriteStep::RemoveTemp,
        next_write_step(unix, WriteStep::ReplaceTarget, false) == WriteStep::Failed,
        next_write_step(unix, WriteStep::RemoveTemp, removed) == WriteStep::Failed,
        next_write_step(unix, WriteStep::Failed, removed) == WriteStep::Failed,
        next_write_step(unix, WriteStep::Done, removed) == WriteStep::Done,
{
}

} // verus!
