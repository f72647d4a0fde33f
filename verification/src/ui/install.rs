//! The dialog that installs or updates the program.
//!
//! The installation is a state machine: [`InstallApp::action`] says what to do
//! next, [`InstallApp::resume`] takes what came of it. A step that cannot be
//! done without is tried in another way, or ends the installation with a
//! message; any other step may fail.

use vstd::prelude::*;

use crate::config::{Config, UiConfig};
use crate::paths;
use crate::platform::install::{EXIT_WAIT_MS, VERSION, VERSION_FILE_NAME};
use crate::text;
use crate::text::{concat2, concat3, str_eq};
use crate::updater::old_exe_path;

verus! {

broadcast use vstd::seq::group_seq_axioms;

/// How the dialog ended.
#[derive(Debug, Clone, Copy, PartialEq, Eq, Structural)]
pub enum InstallResult {
    /// The program was installed or updated.
    Installed,
    /// The user runs the program from where it is, or closed the dialog.
    Portable,
}

/// The exit code of the process that shows the dialog.
pub fn exit_code(result: InstallResult) -> (r: i32)
    ensures
        r == (match result {
            InstallResult::Installed => 0i32,
            InstallResult::Portable => 1i32,
        }),
{
    match result {
        InstallResult::Installed => 0,
        InstallResult::Portable => 1,
    }
}

/// What the shortcuts say.
pub const SHORTCUT_DESCRIPTION: &'static str = "Sync photos and videos to Immich";

/// What the user chose.
#[derive(Debug, Clone, Copy, PartialEq, Eq, Structural)]
pub struct InstallOptions {
    /// An installed program is updated.
    pub is_update: bool,
    pub autostart: bool,
    pub desktop_shortcut: bool,
    pub start_menu_shortcut: bool,
}

/// Where an installation stands.
#[derive(Debug, Clone, Copy, PartialEq, Eq, Structural)]
pub enum InstallPhase {
    /// Ending other instances.
    StoppingOthers,
    /// Waiting until they have ended.
    Waiting,
    /// Copying the executable.
    Copying,
    /// Renaming the installed executable, and copying the new one.
    Renaming,
    /// Finding the installed executable.
    Locating,
    DesktopShortcut,
    StartMenuShortcut,
    SettingAutostart,
    SavingConfig,
    /// Writing the entry in the list of installed programs.
    Registering,
    /// Starting the installed program.
    Relaunching,
    Installed,
    /// The installation ended with a message.
    Failed,
}

/// What to do next.
#[derive(Debug)]
pub enum InstallAction {
    StopOthers,
    Wait { ms: u64 },
    CopyExe,
    RenameAndCopy,
    FindInstalled,
    /// Create a shortcut to this program on the desktop.
    CreateDesktopShortcut { target: String },
    /// Create a shortcut to this program in the start menu.
    CreateStartMenuShortcut { target: String },
    SetAutostart { enabled: bool },
    SaveConfig,
    WriteRegistry,
    Relaunch { program: String },
    /// The installation is over.
    Finish,
}

/// What came of an action.
#[derive(Debug)]
pub enum InstallEvent {
    /// It was done, or it failed and that does not matter.
    Done,
    /// What came of copying the executable.
    Copied(Result<(), String>),
    /// The installed executable, or why it is not known.
    Found(Result<String, String>),
}

/// The phase in which an installation begins. Other instances are ended only
/// where they may hold the installed executable.
pub open spec fn first_phase(o: InstallOptions) -> InstallPhase {
    if o.is_update {
        InstallPhase::StoppingOthers
    } else {
        InstallPhase::Copying
    }
}

/// The phase after the shortcuts. An update leaves the autostart entry as it
/// is.
pub open spec fn after_shortcuts(o: InstallOptions) -> InstallPhase {
    if o.is_update {
        InstallPhase::SavingConfig
    } else {
        InstallPhase::SettingAutostart
    }
}

/// The phase after a phase that was passed.
pub open spec fn following(o: InstallOptions, p: InstallPhase) -> InstallPhase {
    match p {
        InstallPhase::StoppingOthers => InstallPhase::Waiting,
        InstallPhase::Waiting => InstallPhase::Copying,
        InstallPhase::Copying => InstallPhase::Locating,
        InstallPhase::Renaming => InstallPhase::Locating,
        InstallPhase::Locating => if o.desktop_shortcut {
            InstallPhase::DesktopShortcut
        } else if o.start_menu_shortcut {
            InstallPhase::StartMenuShortcut
        } else {
            after_shortcuts(o)
        },
        InstallPhase::DesktopShortcut => if o.start_menu_shortcut {
            InstallPhase::StartMenuShortcut
        } else {
            after_shortcuts(o)
        },
        InstallPhase::StartMenuShortcut => after_shortcuts(o),
        InstallPhase::SettingAutostart => InstallPhase::SavingConfig,
        InstallPhase::SavingConfig => InstallPhase::Registering,
        InstallPhase::Registering => InstallPhase::Relaunching,
        InstallPhase::Relaunching => InstallPhase::Installed,
        InstallPhase::Installed => InstallPhase::Installed,
        InstallPhase::Failed => InstallPhase::Failed,
    }
}

/// The phase after an event; one that does not fit changes nothing.
pub open spec fn next_phase(o: InstallOptions, p: InstallPhase, e: InstallEvent) -> InstallPhase {
    match (p, e) {
        (InstallPhase::Copying, InstallEvent::Copied(Ok(_))) => following(o, p),
        (InstallPhase::Copying, InstallEvent::Copied(Err(_))) => InstallPhase::Renaming,
        (InstallPhase::Renaming, InstallEvent::Copied(Ok(_))) => following(o, p),
        (InstallPhase::Renaming, InstallEvent::Copied(Err(_))) => InstallPhase::Failed,
        (InstallPhase::Locating, InstallEvent::Found(Ok(_))) => following(o, p),
        (InstallPhase::Locating, InstallEvent::Found(Err(_))) => InstallPhase::Failed,
        (InstallPhase::Copying, _) => p,
        (InstallPhase::Renaming, _) => p,
        (InstallPhase::Locating, _) => p,
        (_, InstallEvent::Done) => following(o, p),
        _ => p,
    }
}

/// The message with which an installation ends, where an event ends it.
pub open spec fn failure_text(p: InstallPhase, e: InstallEvent) -> Option<Seq<char>> {
    match (p, e) {
        (InstallPhase::Renaming, InstallEvent::Copied(Err(m))) => Some("Install failed: "@ + m@),
        (InstallPhase::Locating, InstallEvent::Found(Err(m))) => Some(
            "Could not determine install path: "@ + m@,
        ),
        _ => None,
    }
}

/// The dialog.
#[derive(Debug)]
pub struct InstallApp {
    pub options: InstallOptions,
    /// The version that is updated, where it is known.
    pub old_version: Option<String>,
    /// What went wrong, if anything.
    pub status: String,
    pub phase: InstallPhase,
    /// The installed executable, once it is known.
    pub program: String,
}

/// What an old version is called that is not known.
pub const UNKNOWN_VERSION: &'static str = "unknown";

impl InstallApp {
    /// The dialog as it is opened: everything is chosen.
    pub fn new(is_update: bool, old_version: Option<String>) -> (r: InstallApp)
        ensures
            r.options == (InstallOptions {
                is_update,
                autostart: true,
                desktop_shortcut: true,
                start_menu_shortcut: true,
            }),
            r.old_version == old_version,
            r.status@ == ""@,
            r.phase == first_phase(r.options),
            r.program@ == ""@,
    {
        InstallApp {
            options: InstallOptions {
                is_update,
                autostart: true,
                desktop_shortcut: true,
                start_menu_shortcut: true,
            },
            old_version,
            status: "".to_owned(),
            phase: if is_update {
                InstallPhase::StoppingOthers
            } else {
                InstallPhase::Copying
            },
            program: "".to_owned(),
        }
    }

    /// The heading of the dialog.
    pub fn heading(&self) -> (r: &'static str)
        ensures
            r@ == (if self.options.is_update {
                "Update ImmichSync"@
            } else {
                "Install ImmichSync"@
            }),
    {
        if self.options.is_update {
            "Update ImmichSync"
        } else {
            "Install ImmichSync"
        }
    }

    /// The line that tells which version is updated, where one is.
    pub fn version_line(&self) -> (r: Option<String>)
        ensures
            text::opt_text(r) == (if !self.options.is_update {
                None
            } else {
                match text::opt_text(self.old_version) {
                    Some(v) => if v == UNKNOWN_VERSION@ {
                        Some("Updating to v"@ + VERSION@)
                    } else {
                        Some("Updating from v"@ + v + " to v"@ + VERSION@)
                    },
                    None => Some("Updating to v"@ + VERSION@),
                }
            }),
    {
        if !self.options.is_update {
            return None;
        }
        match &self.old_version {
            Some(v) => {
                if str_eq(v, UNKNOWN_VERSION) {
                    Some(concat2("Updating to v", VERSION))
                } else {
                    let mut r: String = concat3("Updating from v", v, " to v");
                    r.append(VERSION);
                    Some(r)
                }
            },
            None => Some(concat2("Updating to v", VERSION)),
        }
    }

    /// Begin, or begin anew after a failure.
    pub fn do_install(&mut self)
        ensures
            final(self).phase == first_phase(old(self).options),
            final(self).options == old(self).options,
            final(self).old_version == old(self).old_version,
            final(self).status == old(self).status,
            final(self).program@ == old(self).program@,
    {
        self.phase = if self.options.is_update {
            InstallPhase::StoppingOthers
        } else {
            InstallPhase::Copying
        };
    }

    /// What to do next.
    pub fn action(&self) -> (r: InstallAction)
        ensures
            match self.phase {
                InstallPhase::StoppingOthers => r is StopOthers,
                InstallPhase::Waiting => r == (InstallAction::Wait { ms: EXIT_WAIT_MS }),
                InstallPhase::Copying => r is CopyExe,
                InstallPhase::Renaming => r is RenameAndCopy,
                InstallPhase::Locating => r is FindInstalled,
                InstallPhase::DesktopShortcut => r matches InstallAction::CreateDesktopShortcut {
                    target,
                } && target@ == self.program@,
                InstallPhase::StartMenuShortcut => r matches InstallAction::CreateStartMenuShortcut {
                    target,
                } && target@ == self.program@,
                InstallPhase::SettingAutostart => r == (InstallAction::SetAutostart {
                    enabled: self.options.autostart,
                }),
                InstallPhase::SavingConfig => r is SaveConfig,
                InstallPhase::Registering => r is WriteRegistry,
                InstallPhase::Relaunching => r matches InstallAction::Relaunch { program }
                    && program@ == self.program@,
                InstallPhase::Installed => r is Finish,
                InstallPhase::Failed => r is Finish,
            },
    {
        match self.phase {
            InstallPhase::StoppingOthers => InstallAction::StopOthers,
            InstallPhase::Waiting => InstallAction::Wait { ms: EXIT_WAIT_MS },
            InstallPhase::Copying => InstallAction::CopyExe,
            InstallPhase::Renaming => InstallAction::RenameAndCopy,
            InstallPhase::Locating => InstallAction::FindInstalled,
            InstallPhase::DesktopShortcut => InstallAction::CreateDesktopShortcut {
                target: self.program.clone(),
            },
            InstallPhase::StartMenuShortcut => InstallAction::CreateStartMenuShortcut {
                target: self.program.clone(),
            },
            InstallPhase::SettingAutostart => InstallAction::SetAutostart {
                enabled: self.options.autostart,
            },
            InstallPhase::SavingConfig => InstallAction::SaveConfig,
            InstallPhase::Registering => InstallAction::WriteRegistry,
            InstallPhase::Relaunching => InstallAction::Relaunch { program: self.program.clone() },
            InstallPhase::Installed => InstallAction::Finish,
            InstallPhase::Failed => InstallAction::Finish,
        }
    }

    fn pass(&mut self)
        ensures
            final(self).phase == following(old(self).options, old(self).phase),
            final(self).options == old(self).options,
            final(self).old_version == old(self).old_version,
            final(self).status == old(self).status,
            final(self).program@ == old(self).program@,
    {
        let o: InstallOptions = self.options;
        let ended: InstallPhase = if o.is_update {
            InstallPhase::SavingConfig
        } else {
            InstallPhase::SettingAutostart
        };
        self.phase = match self.phase {
            InstallPhase::StoppingOthers => InstallPhase::Waiting,
            InstallPhase::Waiting => InstallPhase::Copying,
            InstallPhase::Copying => InstallPhase::Locating,
            InstallPhase::Renaming => InstallPhase::Locating,
            InstallPhase::Locating => {
                if o.desktop_shortcut {
                    InstallPhase::DesktopShortcut
                } else if o.start_menu_shortcut {
                    InstallPhase::StartMenuShortcut
                } else {
                    ended
                }
            },
            InstallPhase::DesktopShortcut => {
                if o.start_menu_shortcut {
                    InstallPhase::StartMenuShortcut
                } else {
                    ended
                }
            },
            InstallPhase::StartMenuShortcut => ended,
            InstallPhase::SettingAutostart => InstallPhase::SavingConfig,
            InstallPhase::SavingConfig => InstallPhase::Registering,
            InstallPhase::Registering => InstallPhase::Relaunching,
            InstallPhase::Relaunching => InstallPhase::Installed,
            InstallPhase::Installed => InstallPhase::Installed,
            InstallPhase::Failed => InstallPhase::Failed,
        };
    }

    /// Take in what came of an action.
    pub fn resume(&mut self, event: InstallEvent)
        ensures
            final(self).phase == next_phase(old(self).options, old(self).phase, event),
            final(self).options == old(self).options,
            final(self).old_version == old(self).old_version,
            final(self).status@ == (match failure_text(old(self).phase, event) {
                Some(m) => m,
                None => old(self).status@,
            }),
            final(self).program@ == (match (old(self).phase, event) {
                (InstallPhase::Locating, InstallEvent::Found(Ok(p))) => p@,
                _ => old(self).program@,
            }),
    {
        match event {
            InstallEvent::Copied(result) => match (self.phase, result) {
                (InstallPhase::Copying, Ok(_)) => {
                    self.pass();
                },
                (InstallPhase::Copying, Err(_)) => {
                    self.phase = InstallPhase::Renaming;
                },
                (InstallPhase::Renaming, Ok(_)) => {
                    self.pass();
                },
                (InstallPhase::Renaming, Err(m)) => {
                    self.status = concat2("Install failed: ", &m);
                    self.phase = InstallPhase::Failed;
                },
                _ => {},
            },
            InstallEvent::Found(result) => match (self.phase, result) {
                (InstallPhase::Locating, Ok(p)) => {
                    self.program = p;
                    self.pass();
                },
                (InstallPhase::Locating, Err(m)) => {
                    self.status = concat2("Could not determine install path: ", &m);
                    self.phase = InstallPhase::Failed;
                },
                _ => {},
            },
            InstallEvent::Done => match self.phase {
                InstallPhase::Copying => {},
                InstallPhase::Renaming => {},
                InstallPhase::Locating => {},
                _ => {
                    self.pass();
                },
            },
        }
    }

    /// How the dialog ends as things stand.
    pub fn result(&self) -> (r: InstallResult)
        ensures
            r == (if self.phase is Installed {
                InstallResult::Installed
            } else {
                InstallResult::Portable
            }),
    {
        match self.phase {
            InstallPhase::Installed => InstallResult::Installed,
            _ => InstallResult::Portable,
        }
    }
}

/// The configuration of an installed program. An update leaves the autostart
/// setting as it is.
pub fn installed_config(config: Config, options: InstallOptions) -> (r: Config)
    ensures
        r == (Config {
            ui: UiConfig {
                start_with_windows: if options.is_update {
                    config.ui.start_with_windows
                } else {
                    options.autostart
                },
                portable_mode: false,
                ..config.ui
            },
            ..config
        }),
{
    let mut c: Config = config;
    if !options.is_update {
        c.ui.start_with_windows = options.autostart;
    }
    c.ui.portable_mode = false;
    c
}

/// The configuration of a program that runs from where it is.
pub fn do_portable(config: Config) -> (r: Config)
    ensures
        r == (Config { ui: UiConfig { portable_mode: true, ..config.ui }, ..config }),
{
    let mut c: Config = config;
    c.ui.portable_mode = true;
    c
}

/// How to replace an executable that is in use: it is renamed, the new one is
/// copied to its place, and the version is written beside it.
#[derive(Debug)]
pub struct RenamePlan {
    /// What the executable is renamed to; one that is left over from an earlier
    /// update is removed first.
    pub old_exe: String,
    pub destination: String,
    pub version_file: Option<String>,
}

/// How to replace the executable `dest`.
pub fn install_exe_rename_dance(dest: &str) -> (r: RenamePlan)
    ensures
        r.old_exe@ == paths::path_with_extension(dest@, "exe.old"@),
        r.destination@ == dest@,
        text::opt_text(r.version_file) == (match paths::path_parent(dest@) {
            Some(dir) => Some(paths::path_joined(dir, VERSION_FILE_NAME@)),
            None => None,
        }),
{
    RenamePlan {
        old_exe: old_exe_path(dest),
        destination: dest.to_owned(),
        version_file: match paths::parent(dest) {
            Some(dir) => Some(paths::join(&dir, VERSION_FILE_NAME)),
            None => None,
        },
    }
}

// ── Laws ────────────────────────────────────────────────────────────────────

/// How far an installation has come.
pub open spec fn progress(p: InstallPhase) -> int {
    match p {
        InstallPhase::StoppingOthers => 0,
        InstallPhase::Waiting => 1,
        InstallPhase::Copying => 2,
        InstallPhase::Renaming => 3,
        InstallPhase::Locating => 4,
        InstallPhase::DesktopShortcut => 5,
        InstallPhase::StartMenuShortcut => 6,
        InstallPhase::SettingAutostart => 7,
        InstallPhase::SavingConfig => 8,
        InstallPhase::Registering => 9,
        InstallPhase::Relaunching => 10,
        InstallPhase::Installed => 11,
        InstallPhase::Failed => 11,
    }
}

/// An installation ends: every event that fits takes it further.
pub proof fn law_installation_ends(o: InstallOptions, p: InstallPhase, e: InstallEvent)
    requires
        next_phase(o, p, e) != p,
    ensures
        progress(p) < progress(next_phase(o, p, e)) <= 11,
{
}

/// Nothing is done with the installed program before it was copied: the phases
/// that use it follow only on its being found, and that follows only on its
/// being copied.
pub proof fn law_program_is_copied_first(o: InstallOptions, p: InstallPhase, e: InstallEvent)
    ensures
        next_phase(o, p, e) is Locating && p !is Locating ==> (e matches InstallEvent::Copied(r) && r
            is Ok),
        progress(p) < 4 && next_phase(o, p, e) !is Failed ==> progress(next_phase(o, p, e)) <= 4,
        p is Locating && progress(next_phase(o, p, e)) > 4 && next_phase(o, p, e) !is Failed
            ==> e is Found,
{
}

/// An update does not touch the autostart entry.
pub proof fn law_update_keeps_autostart(o: InstallOptions, p: InstallPhase, e: InstallEvent)
    requires
        o.is_update,
        p !is SettingAutostart,
    ensures
        next_phase(o, p, e) !is SettingAutostart,
{
}

/// Before an update the other instances are stopped and waited for; an
/// installation begins with the copy.
pub proof fn law_update_stops_the_others(o: InstallOptions)
    ensures
        o.is_update ==> first_phase(o) is StoppingOthers && next_phase(
            o,
            InstallPhase::StoppingOthers,
            InstallEvent::Done,
        ) is Waiting && next_phase(o, InstallPhase::Waiting, InstallEvent::Done) is Copying,
        !o.is_update ==> first_phase(o) is Copying,
{
}

/// Where the program cannot be copied it is renamed first; where that fails too,
/// or the installed program is not found, the installation fails and says why.
pub proof fn law_failed_copy_is_tried_again(o: InstallOptions, m: String, p: String)
    ensures
        next_phase(o, InstallPhase::Copying, InstallEvent::Copied(Ok(()))) is Locating,
        next_phase(o, InstallPhase::Copying, InstallEvent::Copied(Err(m))) is Renaming,
        next_phase(o, InstallPhase::Renaming, InstallEvent::Copied(Ok(()))) is Locating,
        next_phase(o, InstallPhase::Renaming, InstallEvent::Copied(Err(m))) is Failed,
        next_phase(o, InstallPhase::Locating, InstallEvent::Found(Err(m))) is Failed,
        !(next_phase(o, InstallPhase::Locating, InstallEvent::Found(Ok(p))) is Failed),
        failure_text(InstallPhase::Renaming, InstallEvent::Copied(Err(m))) == Some(
            "Install failed: "@ + m@,
        ),
        failure_text(InstallPhase::Locating, InstallEvent::Found(Err(m))) == Some(
            "Could not determine install path: "@ + m@,
        ),
        failure_text(InstallPhase::Copying, InstallEvent::Copied(Err(m))) is None,
{
}

/// Each shortcut is made where it is wanted and only there; autostart is set where
/// no program is updated; and configuration, entry and start of the installed
/// program always follow.
pub proof fn law_wanted_steps_are_taken(o: InstallOptions, p: String)
    ensures
        ({
            let found = next_phase(o, InstallPhase::Locating, InstallEvent::Found(Ok(p)));
            let on = |q: InstallPhase| next_phase(o, q, InstallEvent::Done);
            &&& o.desktop_shortcut ==> found is DesktopShortcut
            &&& !o.desktop_shortcut && o.start_menu_shortcut ==> found is StartMenuShortcut
            &&& !o.desktop_shortcut && !o.start_menu_shortcut && o.is_update ==> found is
                SavingConfig
            &&& !o.desktop_shortcut && !o.start_menu_shortcut && !o.is_update ==> found is
                SettingAutostart
            &&& o.start_menu_shortcut ==> on(InstallPhase::DesktopShortcut) is StartMenuShortcut
            &&& !o.start_menu_shortcut && o.is_update ==> on(InstallPhase::DesktopShortcut) is
                SavingConfig
            &&& !o.start_menu_shortcut && !o.is_update ==> on(InstallPhase::DesktopShortcut) is
                SettingAutostart
            &&& o.is_update ==> on(InstallPhase::StartMenuShortcut) is SavingConfig
            &&& !o.is_update ==> on(InstallPhase::StartMenuShortcut) is SettingAutostart
            &&& on(InstallPhase::SettingAutostart) is SavingConfig
            &&& on(InstallPhase::SavingConfig) is Registering
            &&& on(InstallPhase::Registering) is Relaunching
            &&& on(InstallPhase::Relaunching) is Installed
        }),
{
}

/// An answer that was not asked for changes nothing, and an installation that is
/// over stays over.
pub proof fn law_installation_takes_only_answers(
    o: InstallOptions,
    p: InstallPhase,
    e: InstallEvent,
)
    ensures
        (p is Copying || p is Renaming) && !(e is Copied) ==> next_phase(o, p, e) == p,
        p is Locating && !(e is Found) ==> next_phase(o, p, e) == p,
        !(p is Copying) && !(p is Renaming) && !(p is Locating) && !(e is Done) ==> next_phase(
            o,
            p,
            e,
        ) == p,
        p is Installed || p is Failed ==> next_phase(o, p, e) == p,
{
}

} // verus!
