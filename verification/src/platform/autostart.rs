//! Starting with Windows: the entry of the program in the user's `Run` key.

use vstd::prelude::*;

use crate::config;
use crate::paths;
use crate::platform::install;
use crate::platform::install::{installed_exe_path, InstallError, EXE_NAME};
use crate::platform::registry::{ERROR_FILE_NOT_FOUND, ERROR_SUCCESS};
use crate::platform::wide;
use crate::platform::wide::{code_text, encode_reg_sz};
use crate::text::concat2;

verus! {

/// The key, below `HKEY_CURRENT_USER`.
pub const RUN_KEY: &'static str = "Software\\Microsoft\\Windows\\CurrentVersion\\Run";

/// The name of the entry.
pub const VALUE_NAME: &'static str = "ImmichSync";

/// Why the entry could not be changed.
#[derive(Debug)]
pub enum AutostartError {
    RegistryOpen(u32),
    RegistryWrite(u32),
    RegistryDelete(u32),
    ExePath(String),
    ExePathEncoding,
}

/// The text of an [`AutostartError`].
pub open spec fn autostart_message(e: AutostartError) -> Seq<char> {
    match e {
        AutostartError::RegistryOpen(c) => "registry open failed: Win32 error "@ + wide::code_of(c),
        AutostartError::RegistryWrite(c) => "registry write failed: Win32 error "@
            + wide::code_of(c),
        AutostartError::RegistryDelete(c) => "registry delete failed: Win32 error "@
            + wide::code_of(c),
        AutostartError::ExePath(m) => "could not determine current executable path: "@ + m@,
        AutostartError::ExePathEncoding => "executable path is not valid UTF-8"@,
    }
}

impl AutostartError {
    /// The message shown to the user.
    pub fn message(&self) -> (r: String)
        ensures
            r@ == autostart_message(*self),
    {
        match self {
            AutostartError::RegistryOpen(c) => concat2(
                "registry open failed: Win32 error ",
                &code_text(*c),
            ),
            AutostartError::RegistryWrite(c) => concat2(
                "registry write failed: Win32 error ",
                &code_text(*c),
            ),
            AutostartError::RegistryDelete(c) => concat2(
                "registry delete failed: Win32 error ",
                &code_text(*c),
            ),
            AutostartError::ExePath(m) => concat2(
                "could not determine current executable path: ",
                m,
            ),
            AutostartError::ExePathEncoding => "executable path is not valid UTF-8".to_owned(),
        }
    }
}

/// What to do with the entry.
#[derive(Debug)]
pub enum AutostartChange {
    /// Write these bytes.
    Write(Vec<u8>),
    /// Delete it.
    Delete,
}

/// What to do with the entry so that the program starts with Windows, or does
/// not. `exe` is the path of the installed executable, where it is known.
pub fn autostart_change(enabled: bool, exe: Result<String, InstallError>) -> (r: Result<
    AutostartChange,
    AutostartError,
>)
    ensures
        if !enabled {
            r matches Ok(AutostartChange::Delete)
        } else {
            match exe {
                Ok(p) => r matches Ok(AutostartChange::Write(b)) && b@ == wide::reg_sz(p@),
                Err(e) => r matches Err(AutostartError::ExePath(m)) && m@
                    == install::install_message(e),
            }
        },
{
    if !enabled {
        return Ok(AutostartChange::Delete);
    }
    match exe {
        Ok(p) => Ok(AutostartChange::Write(encode_reg_sz(&p))),
        Err(e) => Err(AutostartError::ExePath(e.message())),
    }
}

/// What to do with the entry so that the program starts with Windows, or does
/// not. It is always the installed executable that is started. Which directory
/// the machine has for it is not stated; see [`autostart_change`] for what
/// follows from its path.
pub fn set_autostart(enabled: bool) -> (r: Result<AutostartChange, AutostartError>)
    ensures
        match r {
            Ok(AutostartChange::Write(b)) => enabled && exists|base: Seq<char>|
                b@ == wide::reg_sz(paths::child(#[trigger] config::program_dir(base), EXE_NAME@)),
            Ok(AutostartChange::Delete) => !enabled,
            Err(AutostartError::ExePath(m)) => enabled && m@ == install::install_message(
                InstallError::DataDir(config::ConfigError::NoDataDir),
            ),
            Err(_) => false,
        },
{
    let exe: Result<String, InstallError> = installed_exe_path();
    let r: Result<AutostartChange, AutostartError> = autostart_change(enabled, exe);
    proof {
        if enabled && exe is Ok {
            let base = choose|base: Seq<char>|
                exe->Ok_0@ == paths::child(#[trigger] config::program_dir(base), EXE_NAME@);
            assert(r->Ok_0->Write_0@ == wide::reg_sz(
                paths::child(config::program_dir(base), EXE_NAME@),
            ));
        }
    }
    r
}

/// What opening the key means.
pub fn key_opened(code: u32) -> (r: Result<(), AutostartError>)
    ensures
        r == (if code == ERROR_SUCCESS {
            Ok(())
        } else {
            Err::<(), AutostartError>(AutostartError::RegistryOpen(code))
        }),
{
    if code == ERROR_SUCCESS {
        Ok(())
    } else {
        Err(AutostartError::RegistryOpen(code))
    }
}

/// What writing the entry means.
pub fn entry_written(code: u32) -> (r: Result<(), AutostartError>)
    ensures
        r == (if code == ERROR_SUCCESS {
            Ok(())
        } else {
            Err::<(), AutostartError>(AutostartError::RegistryWrite(code))
        }),
{
    if code == ERROR_SUCCESS {
        Ok(())
    } else {
        Err(AutostartError::RegistryWrite(code))
    }
}

/// What deleting the entry means. An entry that is not there is as good as
/// deleted.
pub fn entry_deleted(code: u32) -> (r: Result<(), AutostartError>)
    ensures
        r == (if code == ERROR_SUCCESS || code == ERROR_FILE_NOT_FOUND {
            Ok(())
        } else {
            Err::<(), AutostartError>(AutostartError::RegistryDelete(code))
        }),
{
    if code == ERROR_SUCCESS || code == ERROR_FILE_NOT_FOUND {
        Ok(())
    } else {
        Err(AutostartError::RegistryDelete(code))
    }
}

} // verus!
