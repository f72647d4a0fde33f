//! Installation of the executable, and removal of earlier installations.
//!
//! The executable is installed to `%LOCALAPPDATA%\Programs\immichsync`, with a
//! file that holds its version. Earlier releases kept it with the data, under
//! `%APPDATA%`.

use vstd::prelude::*;

use crate::config;
use crate::config::{roaming_base, Config, ConfigError};
use crate::paths;
use crate::paths::{child_path, same_path};
use crate::text;
use crate::text::{concat2, concat3, has_prefix, str_eq, to_lowercase, trim, u64_text};
use crate::updater;
use crate::updater::{newer_version, parse_version};

verus! {

broadcast use vstd::seq::group_seq_axioms;

// ── Errors ──────────────────────────────────────────────────────────────────

/// Why an installation step failed. `detail` is the message of whoever failed.
#[derive(Debug)]
pub enum InstallError {
    DataDir(ConfigError),
    CurrentExe(String),
    Copy { dest: String, detail: String },
    CreateDir { path: String, detail: String },
    Io(String),
}

/// The text of an [`InstallError`].
pub open spec fn install_message(e: InstallError) -> Seq<char> {
    match e {
        InstallError::DataDir(c) => "could not determine data directory: "@
            + config::config_message(c),
        InstallError::CurrentExe(detail) => "could not determine current executable: "@ + detail@,
        InstallError::Copy { dest, detail } => "failed to copy exe to `"@ + dest@ + "`: "@ + detail@,
        InstallError::CreateDir { path, detail } => "failed to create directory `"@ + path@ + "`: "@
            + detail@,
        InstallError::Io(detail) => "IO error: "@ + detail@,
    }
}

impl InstallError {
    /// The message shown to the user.
    pub fn message(&self) -> (r: String)
        ensures
            r@ == install_message(*self),
    {
        match self {
            InstallError::DataDir(c) => concat2(
                "could not determine data directory: ",
                &c.message(),
            ),
            InstallError::CurrentExe(detail) => concat2(
                "could not determine current executable: ",
                detail,
            ),
            InstallError::Copy { dest, detail } => {
                let mut r: String = concat3("failed to copy exe to `", dest, "`: ");
                r.append(detail);
                r
            },
            InstallError::CreateDir { path, detail } => {
                let mut r: String = concat3("failed to create directory `", path, "`: ");
                r.append(detail);
                r
            },
            InstallError::Io(detail) => concat2("IO error: ", detail),
        }
    }
}

// ── Locations ───────────────────────────────────────────────────────────────

/// The name of the executable.
pub const EXE_NAME: &'static str = "immichsync.exe";

/// The name of the file that holds the version.
pub const VERSION_FILE_NAME: &'static str = "version.txt";

/// The directory of the installed executable.
pub fn install_dir() -> (r: Result<String, InstallError>)
    ensures
        match r {
            Ok(d) => exists|base: Seq<char>| d@ == #[trigger] config::program_dir(base),
            Err(e) => e == InstallError::DataDir(ConfigError::NoDataDir),
        },
{
    match Config::install_dir() {
        Ok(d) => Ok(d),
        Err(e) => Err(InstallError::DataDir(e)),
    }
}

/// The executable in the directory `dir`.
pub fn exe_path_in(dir: &str) -> (r: String)
    ensures
        r@ == paths::child(dir@, EXE_NAME@),
{
    child_path(dir, EXE_NAME)
}

/// The file in the directory `dir` that holds the version.
pub fn version_file_in(dir: &str) -> (r: String)
    ensures
        r@ == paths::child(dir@, VERSION_FILE_NAME@),
{
    child_path(dir, VERSION_FILE_NAME)
}

/// The installed executable.
pub fn installed_exe_path() -> (r: Result<String, InstallError>)
    ensures
        match r {
            Ok(p) => exists|base: Seq<char>|
                p@ == paths::child(#[trigger] config::program_dir(base), EXE_NAME@),
            Err(e) => e == InstallError::DataDir(ConfigError::NoDataDir),
        },
{
    match install_dir() {
        Ok(d) => Ok(exe_path_in(&d)),
        Err(e) => Err(e),
    }
}

/// The file that holds the version of the installed executable.
pub fn version_file_path() -> (r: Result<String, InstallError>)
    ensures
        match r {
            Ok(p) => exists|base: Seq<char>|
                p@ == paths::child(#[trigger] config::program_dir(base), VERSION_FILE_NAME@),
            Err(e) => e == InstallError::DataDir(ConfigError::NoDataDir),
        },
{
    match install_dir() {
        Ok(d) => Ok(version_file_in(&d)),
        Err(e) => Err(e),
    }
}

/// A path in its canonical form, where the filesystem can give it.
pub open spec fn resolved(path: Seq<char>, canonical: Option<Seq<char>>) -> Seq<char> {
    match canonical {
        Some(c) => c,
        None => path,
    }
}

/// Whether the running executable is the installed one. The canonical forms are
/// compared, where the filesystem can give them.
pub fn is_running_installed(
    current: &str,
    current_canonical: Option<&str>,
    installed: &str,
    installed_canonical: Option<&str>,
) -> (r: bool)
    ensures
        r == paths::same_components(
            resolved(current@, current_canonical.deep_view()),
            resolved(installed@, installed_canonical.deep_view()),
        ),
{
    let a: &str = match current_canonical {
        Some(c) => c,
        None => current,
    };
    let b: &str = match installed_canonical {
        Some(c) => c,
        None => installed,
    };
    same_path(a, b)
}

/// How to install the running executable.
#[derive(Debug)]
pub struct InstallPlan {
    /// The directory to create first, if it does not exist.
    pub create_dir: Option<String>,
    /// Where the executable is copied to.
    pub destination: String,
    /// The file that the version is written to.
    pub version_file: String,
    /// The version.
    pub version: String,
}

/// How to install the running executable to `dir`; `None` where it is the
/// installed one already.
pub fn install_exe(running_installed: bool, dir: &str, dir_exists: bool) -> (r: Option<InstallPlan>)
    ensures
        r is None == running_installed,
        r matches Some(p) ==> {
            &&& text::opt_text(p.create_dir) == (if dir_exists {
                None
            } else {
                Some(dir@)
            })
            &&& p.destination@ == paths::child(dir@, EXE_NAME@)
            &&& p.version_file@ == paths::child(dir@, VERSION_FILE_NAME@)
            &&& p.version@ == VERSION@
        },
{
    if running_installed {
        return None;
    }
    Some(
        InstallPlan {
            create_dir: if dir_exists {
                None
            } else {
                Some(dir.to_owned())
            },
            destination: child_path(dir, EXE_NAME),
            version_file: child_path(dir, VERSION_FILE_NAME),
            version: VERSION.to_owned(),
        },
    )
}

// ── Version ─────────────────────────────────────────────────────────────────

/// The version of this program.
pub const VERSION: &'static str = "0.1.0";

/// The version of this program.
pub fn running_version() -> (r: &'static str)
    ensures
        r@ == VERSION@,
{
    VERSION
}

/// The version that the version file holds: its text without white space at the
/// ends, unless nothing is left.
pub open spec fn version_in(contents: Option<Seq<char>>) -> Option<Seq<char>> {
    match contents {
        Some(c) => if text::trimmed(c).len() == 0 {
            None
        } else {
            Some(text::trimmed(c))
        },
        None => None,
    }
}

/// The version that the version file holds. `contents` is its text, `None`
/// where it cannot be read.
pub fn installed_version(contents: Option<&str>) -> (r: Option<String>)
    ensures
        text::opt_text(r) == version_in(contents.deep_view()),
{
    match contents {
        Some(c) => {
            let t: String = trim(c);
            if t.as_str().is_empty() {
                None
            } else {
                Some(t)
            }
        },
        None => None,
    }
}

/// The installed and the running version, where the running one is newer.
pub open spec fn newer_than_installed(installed: Option<Seq<char>>, running: Seq<char>) -> bool {
    installed is Some && updater::is_version(installed->0) && updater::is_version(running)
        && updater::version_after(running, installed->0)
}

/// The installed version and the version `running`, where that is newer.
pub fn update_over(installed: Option<String>, running: &str) -> (r: Option<(String, String)>)
    ensures
        r is Some == newer_than_installed(text::opt_text(installed), running@),
        r matches Some(v) ==> Some(v.0) == installed && v.1@ == running@,
{
    let found: String = match installed {
        Some(s) => s,
        None => {
            return None;
        },
    };
    if parse_version(&found).is_none() || parse_version(running).is_none() {
        return None;
    }
    if newer_version(running, &found) {
        Some((found, running.to_owned()))
    } else {
        None
    }
}

/// The installed version and the version of this program, where that is newer.
pub fn is_update_available(installed: Option<String>) -> (r: Option<(String, String)>)
    ensures
        r is Some == newer_than_installed(text::opt_text(installed), VERSION@),
        r matches Some(v) ==> Some(v.0) == installed && v.1@ == VERSION@,
{
    update_over(installed, running_version())
}

// ── Earlier installations ───────────────────────────────────────────────────

/// Milliseconds to wait after other instances were told to end.
pub const EXIT_WAIT_MS: u64 = 500;

/// Where earlier releases kept the executable, below the roaming application
/// data directory; the more recent place first.
pub open spec fn legacy_dirs_of(base: Option<Seq<char>>) -> Seq<Seq<char>> {
    match base {
        Some(b) => seq![config::app_dir(b), paths::child(b, "ImmichSync"@)],
        None => Seq::empty(),
    }
}

/// Where earlier releases kept the executable, below `base`.
pub fn legacy_dirs_in(base: Option<String>) -> (r: Vec<String>)
    ensures
        text::texts(r@) == legacy_dirs_of(text::opt_text(base)),
{
    let mut r: Vec<String> = Vec::new();
    if let Some(b) = base {
        r.push(child_path(&child_path(&b, "bees-roadhouse"), "immichsync"));
        r.push(child_path(&b, "ImmichSync"));
    }
    assert(text::texts(r@) =~= legacy_dirs_of(text::opt_text(base)));
    r
}

/// Where earlier releases kept the executable.
pub fn legacy_install_dirs() -> (r: Vec<String>)
    ensures
        exists|base: Option<Seq<char>>| text::texts(r@) == #[trigger] legacy_dirs_of(base),
{
    legacy_dirs_in(roaming_base())
}

/// Those of the directories that hold an executable. `has_exe` says which do.
pub open spec fn with_executable(dirs: Seq<Seq<char>>, has_exe: Seq<bool>) -> Seq<Seq<char>>
    decreases dirs.len(),
{
    if dirs.len() == 0 {
        Seq::empty()
    } else if has_exe[dirs.len() - 1] {
        with_executable(dirs.drop_last(), has_exe).push(dirs.last())
    } else {
        with_executable(dirs.drop_last(), has_exe)
    }
}

/// Those of the directories that hold an executable, in order.
pub fn detect_legacy_installs(dirs: &Vec<String>, has_exe: &Vec<bool>) -> (r: Vec<String>)
    requires
        has_exe@.len() == dirs@.len(),
    ensures
        text::texts(r@) == with_executable(text::texts(dirs@), has_exe@),
{
    let ghost all = text::texts(dirs@);
    let mut r: Vec<String> = Vec::new();
    let mut i: usize = 0;
    assert(all.take(0) =~= Seq::<Seq<char>>::empty());
    while i < dirs.len()
        invariant
            i <= dirs@.len(),
            has_exe@.len() == dirs@.len(),
            all == text::texts(dirs@),
            text::texts(r@) =~= with_executable(all.take(i as int), has_exe@),
        decreases dirs@.len() - i,
    {
        assert(all.take(i + 1).drop_last() =~= all.take(i as int));
        assert(all.take(i + 1).last() == dirs@[i as int]@);
        if has_exe[i] {
            let ghost before = r@;
            r.push(dirs[i].clone());
            assert(text::texts(r@) =~= text::texts(before).push(dirs@[i as int]@));
        }
        i += 1;
    }
    assert(all.take(all.len() as int) =~= all);
    r
}

/// Whether a path is one of the directories or lies below one of them, when
/// case is ignored.
pub open spec fn under_any(candidate: Seq<char>, dirs: Seq<Seq<char>>) -> bool {
    exists|i: int| 0 <= i < dirs.len() && is_under(candidate, #[trigger] dirs[i])
}

/// Whether a path is a directory or lies below it, when case is ignored.
pub open spec fn is_under(candidate: Seq<char>, dir: Seq<char>) -> bool {
    let c = text::lowercase_text(candidate);
    let d = text::lowercase_text(dir);
    c == d || (d + "\\"@).is_prefix_of(c)
}

/// Whether a path is one of the directories or lies below one of them.
pub fn path_is_under_legacy(candidate: &str, dirs: &Vec<String>) -> (r: bool)
    ensures
        r == under_any(candidate@, text::texts(dirs@)),
{
    let c: String = to_lowercase(candidate);
    let ghost all = text::texts(dirs@);
    let mut i: usize = 0;
    while i < dirs.len()
        invariant
            i <= dirs@.len(),
            all == text::texts(dirs@),
            c@ == text::lowercase_text(candidate@),
            forall|j: int| 0 <= j < i ==> !is_under(candidate@, #[trigger] all[j]),
        decreases dirs@.len() - i,
    {
        assert(all[i as int] == dirs@[i as int]@);
        let d: String = to_lowercase(&dirs[i]);
        if str_eq(&c, &d) || has_prefix(&c, &concat2(&d, "\\")) {
            assert(is_under(candidate@, all[i as int]));
            return true;
        }
        i += 1;
    }
    false
}

/// The files of an earlier installation that are removed.
#[derive(Debug)]
pub struct LegacyFiles {
    pub executable: String,
    /// Removed where it exists.
    pub version_file: String,
}

/// What to remove of the earlier installations in `active`. Where there are
/// any, other instances are ended first, see [`taskkill_args`], and given
/// [`EXIT_WAIT_MS`].
pub fn cleanup_legacy_install(active: &Vec<String>) -> (r: Vec<LegacyFiles>)
    ensures
        r@.len() == active@.len(),
        forall|i: int|
            0 <= i < r@.len() ==> (#[trigger] r@[i]).executable@ == paths::child(
                active@[i]@,
                EXE_NAME@,
            ) && r@[i].version_file@ == paths::child(active@[i]@, VERSION_FILE_NAME@),
{
    let mut r: Vec<LegacyFiles> = Vec::new();
    let mut i: usize = 0;
    while i < active.len()
        invariant
            i <= active@.len(),
            r@.len() == i,
            forall|j: int|
                0 <= j < i ==> (#[trigger] r@[j]).executable@ == paths::child(
                    active@[j]@,
                    EXE_NAME@,
                ) && r@[j].version_file@ == paths::child(active@[j]@, VERSION_FILE_NAME@),
        decreases active@.len() - i,
    {
        r.push(
            LegacyFiles {
                executable: child_path(&active[i], EXE_NAME),
                version_file: child_path(&active[i], VERSION_FILE_NAME),
            },
        );
        i += 1;
    }
    r
}

/// The arguments with which `taskkill` ends every instance but the process
/// `our_pid`.
pub fn taskkill_args(our_pid: u32) -> (r: Vec<String>)
    ensures
        text::texts(r@) == seq![
            "/F"@,
            "/FI"@,
            "PID ne "@ + text::decimal(our_pid as nat),
            "/IM"@,
            EXE_NAME@,
        ],
{
    let mut r: Vec<String> = Vec::new();
    r.push("/F".to_owned());
    r.push("/FI".to_owned());
    r.push(concat2("PID ne ", &u64_text(our_pid as u64)));
    r.push("/IM".to_owned());
    r.push(EXE_NAME.to_owned());
    assert(text::texts(r@) =~= seq![
        "/F"@,
        "/FI"@,
        "PID ne "@ + text::decimal(our_pid as nat),
        "/IM"@,
        EXE_NAME@,
    ]);
    r
}

/// Whether a registered path belongs to an earlier installation. Any other one
/// is left alone.
pub open spec fn is_stale(registered: Option<Seq<char>>, dirs: Seq<Seq<char>>) -> bool {
    registered is Some && under_any(registered->0, dirs)
}

/// Whether to remove the autostart entry. `current` is what it starts.
pub fn cleanup_stale_autostart(current: Option<&str>, dirs: &Vec<String>) -> (r: bool)
    ensures
        r == is_stale(current.deep_view(), text::texts(dirs@)),
{
    match current {
        Some(path) => path_is_under_legacy(path, dirs),
        None => false,
    }
}

/// Whether to remove the entry of the list of installed programs. `location` is
/// the directory that it names.
pub fn cleanup_stale_uninstall_key(location: Option<&str>, dirs: &Vec<String>) -> (r: bool)
    ensures
        r == is_stale(location.deep_view(), text::texts(dirs@)),
{
    match location {
        Some(path) => path_is_under_legacy(path, dirs),
        None => false,
    }
}

// ── Laws ────────────────────────────────────────────────────────────────────

/// The installed version is what its file says, white space around it aside; none
/// where that is nothing.
pub proof fn law_installed_version_is_read(contents: Seq<char>)
    ensures
        version_in(None) is None,
        text::trimmed(contents).len() == 0 ==> version_in(Some(contents)) is None,
        text::trimmed(contents).len() > 0 ==> version_in(Some(contents)) == Some(
            text::trimmed(contents),
        ),
{
}

/// A program is an update of the installed one where both have proper versions
/// and its own is the newer; where none is known it is none.
pub proof fn law_only_newer_programs_are_updates(installed: Seq<char>, running: Seq<char>)
    ensures
        !newer_than_installed(None, running),
        newer_than_installed(Some(installed), running) <==> updater::is_version(installed)
            && updater::is_version(running) && updater::version_after(running, installed),
{
}

/// Old installations are looked for in both places that programs were put below
/// the base.
pub proof fn law_old_places_are_searched(base: Seq<char>, dir: Seq<char>)
    ensures
        legacy_dirs_of(None).len() == 0,
        legacy_dirs_of(Some(base)).contains(dir) <==> dir == config::app_dir(base) || dir
            == paths::child(base, "ImmichSync"@),
{
    let v = legacy_dirs_of(Some(base));
    assert(v[0] == config::app_dir(base));
    assert(v[1] == paths::child(base, "ImmichSync"@));
}

/// A directory counts as an old installation where the executable is there, and
/// only there.
pub proof fn law_old_installation_has_the_executable(
    dirs: Seq<Seq<char>>,
    has_exe: Seq<bool>,
    dir: Seq<char>,
)
    ensures
        with_executable(dirs, has_exe).contains(dir) <==> exists|i: int|
            0 <= i < dirs.len() && #[trigger] dirs[i] == dir && has_exe[i],
    decreases dirs.len(),
{
    if dirs.len() > 0 {
        let d = dirs.drop_last();
        let last = dirs.len() - 1;
        law_old_installation_has_the_executable(d, has_exe, dir);
        let all = with_executable(dirs, has_exe);
        let before = with_executable(d, has_exe);
        if before.contains(dir) {
            let j = choose|j: int| 0 <= j < before.len() && before[j] == dir;
            assert(all[j] == dir);
            let i = choose|i: int| 0 <= i < d.len() && #[trigger] d[i] == dir && has_exe[i];
            assert(dirs[i] == dir);
        }
        if has_exe[last] {
            assert(all[before.len() as int] == dirs[last]);
        }
        if exists|i: int| 0 <= i < dirs.len() && #[trigger] dirs[i] == dir && has_exe[i] {
            let i = choose|i: int| 0 <= i < dirs.len() && #[trigger] dirs[i] == dir && has_exe[i];
            if i < last {
                assert(d[i] == dir);
            }
        }
        if all.contains(dir) && !before.contains(dir) {
            let j = choose|j: int| 0 <= j < all.len() && all[j] == dir;
            if j < before.len() {
                assert(before[j] == dir);
            }
            assert(dirs[last] == dir);
        }
    }
}

/// A path lies under a directory where it is the directory or goes on behind it
/// with a separator, in whatever case; a directory whose name only begins the
/// same is another one.
pub proof fn law_path_under_a_directory(
    candidate: Seq<char>,
    dirs: Seq<Seq<char>>,
    i: int,
    tail: Seq<char>,
)
    requires
        0 <= i < dirs.len(),
    ensures
        text::lowercase_text(candidate) == text::lowercase_text(dirs[i]) ==> under_any(
            candidate,
            dirs,
        ),
        text::lowercase_text(candidate) == text::lowercase_text(dirs[i]).push('\\') + tail
            ==> under_any(candidate, dirs),
        is_under(candidate, dirs[i]) ==> text::lowercase_text(candidate) == text::lowercase_text(
            dirs[i],
        ) || (text::lowercase_text(candidate).len() > text::lowercase_text(dirs[i]).len()
            && text::lowercase_text(candidate)[text::lowercase_text(dirs[i]).len() as int] == '\\'),
        (forall|k: int| 0 <= k < dirs.len() ==> !is_under(candidate, #[trigger] dirs[k]))
            ==> !under_any(candidate, dirs),
{
    reveal_strlit("\\");
    let c = text::lowercase_text(candidate);
    let d = text::lowercase_text(dirs[i]);
    assert(d + "\\"@ =~= d.push('\\'));
    if c == d.push('\\') + tail {
        assert(c.take(d.len() as int + 1) =~= d.push('\\'));
        assert(is_under(candidate, dirs[i]));
    }
    if (d + "\\"@).is_prefix_of(c) {
        assert(c[d.len() as int] == (d + "\\"@)[d.len() as int]);
    }
}

/// An entry of the system is stale where it points into an old installation.
pub proof fn law_stale_entries_point_to_old_installations(
    registered: Seq<char>,
    dirs: Seq<Seq<char>>,
)
    ensures
        !is_stale(None, dirs),
        is_stale(Some(registered), dirs) <==> exists|i: int|
            0 <= i < dirs.len() && is_under(registered, #[trigger] dirs[i]),
{
}

/// A path is compared in its canonical form, where there is one.
pub proof fn law_canonical_form_is_compared(path: Seq<char>, canonical: Seq<char>)
    ensures
        resolved(path, Some(canonical)) == canonical,
        resolved(path, None) == path,
{
}

/// An error of the installation ends with what went wrong.
pub proof fn law_installation_error_ends_with_its_cause(path: String, detail: String, c: ConfigError)
    ensures
        install_message(InstallError::DataDir(c)).skip(
            install_message(InstallError::DataDir(c)).len() - config::config_message(c).len(),
        ) == config::config_message(c),
        install_message(InstallError::CurrentExe(detail)).skip(
            install_message(InstallError::CurrentExe(detail)).len() - detail@.len(),
        ) == detail@,
        install_message(InstallError::Copy { dest: path, detail }).skip(
            install_message(InstallError::Copy { dest: path, detail }).len() - detail@.len(),
        ) == detail@,
        install_message(InstallError::CreateDir { path, detail }).skip(
            install_message(InstallError::CreateDir { path, detail }).len() - detail@.len(),
        ) == detail@,
        install_message(InstallError::Io(detail)).skip(
            install_message(InstallError::Io(detail)).len() - detail@.len(),
        ) == detail@,
{
}

} // verus!
