//! What happens when the program is started.

use vstd::prelude::*;

use crate::app::state;
use crate::app::state::WindowKind;
use crate::config::Config;
use crate::platform::install;
use crate::platform::install::is_update_available;
use crate::text;
use crate::text::str_eq;
use crate::ui::install::UNKNOWN_VERSION;
use crate::updater;
use crate::updater::{effective_repo, github_api_url, UpdateCheckResult, UpdateInfo};

verus! {

broadcast use vstd::seq::group_seq_axioms;

// ── Arguments ───────────────────────────────────────────────────────────────

/// What the program was started for.
#[derive(Debug)]
pub enum Launch {
    /// To show one window.
    Window { kind: String },
    /// To remove itself.
    Uninstall { silent: bool },
    /// To run.
    Normal,
}

/// Whether a list of arguments holds one.
fn has_arg(args: &Vec<String>, arg: &str) -> (r: bool)
    ensures
        r == text::texts(args@).contains(arg@),
{
    let ghost all = text::texts(args@);
    let mut i: usize = 0;
    while i < args.len()
        invariant
            i <= args@.len(),
            all == text::texts(args@),
            forall|j: int| 0 <= j < i ==> all[j] != arg@,
        decreases args@.len() - i,
    {
        assert(all[i as int] == args@[i as int]@);
        if str_eq(&args[i], arg) {
            assert(all.contains(arg@));
            return true;
        }
        i += 1;
    }
    false
}

/// What the program was started for. The first argument is the program itself.
pub fn parse_args(args: &Vec<String>) -> (r: Launch)
    ensures
        ({
            let all = text::texts(args@);
            if all.len() > 2 && all[1] == "--window"@ {
                r matches Launch::Window { kind } && kind@ == all[2]
            } else if all.contains("--uninstall"@) {
                r == (Launch::Uninstall { silent: all.contains("--silent"@) })
            } else {
                r is Normal
            }
        }),
{
    assert(text::texts(args@).len() == args@.len());
    if args.len() > 2 && str_eq(&args[1], "--window") {
        return Launch::Window { kind: args[2].clone() };
    }
    if has_arg(args, "--uninstall") {
        Launch::Uninstall { silent: has_arg(args, "--silent") }
    } else {
        Launch::Normal
    }
}

/// The argument after the first `flag` that is followed by one.
pub open spec fn argument_after(args: Seq<Seq<char>>, flag: Seq<char>) -> Option<Seq<char>>
    decreases args.len(),
{
    if args.len() < 2 {
        None
    } else if args[0] == flag {
        Some(args[1])
    } else {
        argument_after(args.drop_first(), flag)
    }
}

/// The argument after the first `flag` that is followed by one.
pub fn arg_after(args: &Vec<String>, flag: &str) -> (r: Option<String>)
    ensures
        text::opt_text(r) == argument_after(text::texts(args@), flag@),
{
    let ghost all = text::texts(args@);
    if args.len() < 2 {
        return None;
    }
    let mut i: usize = 0;
    assert(all.skip(0) =~= all);
    while i < args.len() - 1
        invariant
            2 <= args@.len(),
            i <= args@.len() - 1,
            all == text::texts(args@),
            argument_after(all.skip(i as int), flag@) == argument_after(all, flag@),
        decreases args@.len() - i,
    {
        assert(all.skip(i as int)[0] == args@[i as int]@);
        assert(all.skip(i as int)[1] == args@[i + 1]@);
        assert(all.skip(i as int).drop_first() =~= all.skip(i + 1));
        if str_eq(&args[i], flag) {
            return Some(args[i + 1].clone());
        }
        i += 1;
    }
    None
}

/// A window that the program shows on its own.
#[derive(Debug)]
pub enum WindowRequest {
    Install,
    InstallUpdate { old_version: Option<String> },
    Wizard,
    Settings,
    About,
    /// The update that the file describes.
    Update { info_path: String },
    /// An update, but no file was given. The program fails.
    UpdateWithoutInfo,
    UploadLog,
    TrashLog,
    Unknown,
}

/// Whether `r` is the window of this kind, with these arguments.
pub open spec fn is_request(r: WindowRequest, kind: Seq<char>, args: Seq<Seq<char>>) -> bool {
    let path = argument_after(args, "--update-info"@);
    if kind == "install"@ {
        r is Install
    } else if kind == "install-update"@ {
        r matches WindowRequest::InstallUpdate { old_version } && text::opt_text(old_version)
            == argument_after(args, "--old-version"@)
    } else if kind == "wizard"@ {
        r is Wizard
    } else if kind == "settings"@ {
        r is Settings
    } else if kind == "about"@ {
        r is About
    } else if kind == "update"@ {
        if path is Some && path->0.len() > 0 {
            r matches WindowRequest::Update { info_path } && info_path@ == path->0
        } else {
            r is UpdateWithoutInfo
        }
    } else if kind == "log"@ {
        r is UploadLog
    } else if kind == "trash-log"@ {
        r is TrashLog
    } else {
        r is Unknown
    }
}

/// The window of a kind.
pub fn run_window_subprocess(window_type: &str, args: &Vec<String>) -> (r: WindowRequest)
    ensures
        is_request(r, window_type@, text::texts(args@)),
{
    if str_eq(window_type, "install") {
        WindowRequest::Install
    } else if str_eq(window_type, "install-update") {
        WindowRequest::InstallUpdate { old_version: arg_after(args, "--old-version") }
    } else if str_eq(window_type, "wizard") {
        WindowRequest::Wizard
    } else if str_eq(window_type, "settings") {
        WindowRequest::Settings
    } else if str_eq(window_type, "about") {
        WindowRequest::About
    } else if str_eq(window_type, "update") {
        match arg_after(args, "--update-info") {
            Some(p) => {
                if p.as_str().is_empty() {
                    WindowRequest::UpdateWithoutInfo
                } else {
                    WindowRequest::Update { info_path: p }
                }
            },
            None => WindowRequest::UpdateWithoutInfo,
        }
    } else if str_eq(window_type, "log") {
        WindowRequest::UploadLog
    } else if str_eq(window_type, "trash-log") {
        WindowRequest::TrashLog
    } else {
        WindowRequest::Unknown
    }
}

// ── Installation ────────────────────────────────────────────────────────────

/// What happens before the program runs.
#[derive(Debug)]
pub enum StartStep {
    /// It runs.
    Continue,
    /// It looks for an update first.
    CheckForUpdate,
    /// It offers to install itself.
    OfferInstall,
    /// It offers to update the installed program.
    OfferUpdate { old_version: String },
    /// It starts the installed program in its place.
    Relaunch,
}

/// What is known of the installation.
#[derive(Debug)]
pub struct InstallState {
    /// Whether the running program is the installed one, where that can be told.
    pub running_installed: Option<bool>,
    /// Whether the user chose to run the program from where it is.
    pub portable: bool,
    /// Whether there is an installed program.
    pub installed_exists: bool,
    /// The version of the installed program, where it can be told.
    pub installed_version: Option<String>,
}

/// Whether `s` is what happens before the program runs. A program that is not
/// the installed one offers to install itself, or to update an older one, and
/// makes way for one that is not older; unless the user chose to run it from
/// where it is.
pub open spec fn is_start(s: StartStep, i: InstallState) -> bool {
    match i.running_installed {
        Some(true) => s is CheckForUpdate,
        None => s is Continue,
        Some(false) => if i.portable {
            s is Continue
        } else if !i.installed_exists {
            s is OfferInstall
        } else if i.installed_version is None {
            s matches StartStep::OfferUpdate { old_version } && old_version@ == UNKNOWN_VERSION@
        } else if install::newer_than_installed(
            text::opt_text(i.installed_version),
            install::VERSION@,
        ) {
            s matches StartStep::OfferUpdate { old_version } && Some(old_version)
                == i.installed_version
        } else {
            s is Relaunch
        },
    }
}

/// What happens before the program runs.
pub fn start_step(state: InstallState) -> (r: StartStep)
    ensures
        is_start(r, state),
{
    match state.running_installed {
        Some(installed) => {
            if installed {
                return StartStep::CheckForUpdate;
            }
        },
        None => {
            return StartStep::Continue;
        },
    }
    if state.portable {
        return StartStep::Continue;
    }
    if !state.installed_exists {
        return StartStep::OfferInstall;
    }
    match state.installed_version {
        None => StartStep::OfferUpdate { old_version: UNKNOWN_VERSION.to_owned() },
        Some(v) => match is_update_available(Some(v)) {
            Some((old_version, _)) => StartStep::OfferUpdate { old_version },
            None => StartStep::Relaunch,
        },
    }
}

/// The arguments of the process that shows the dialog of a step, where it has
/// one.
pub fn dialog_args(step: &StartStep) -> (r: Vec<String>)
    ensures
        text::texts(r@) == (match *step {
            StartStep::OfferInstall => seq!["--window"@, "install"@],
            StartStep::OfferUpdate { old_version } => seq![
                "--window"@,
                "install-update"@,
                "--old-version"@,
                old_version@,
            ],
            _ => Seq::empty(),
        }),
{
    let mut r: Vec<String> = Vec::new();
    match step {
        StartStep::OfferInstall => {
            r.push("--window".to_owned());
            r.push("install".to_owned());
            assert(text::texts(r@) =~= seq!["--window"@, "install"@]);
        },
        StartStep::OfferUpdate { old_version } => {
            r.push("--window".to_owned());
            r.push("install-update".to_owned());
            r.push("--old-version".to_owned());
            r.push(old_version.clone());
            assert(text::texts(r@) =~= seq![
                "--window"@,
                "install-update"@,
                "--old-version"@,
                old_version@,
            ]);
        },
        _ => {
            assert(text::texts(r@) =~= Seq::<Seq<char>>::empty());
        },
    }
    r
}

/// Whether the program ends after its install dialog: the dialog has started the
/// installed program. `code` is the exit code of the dialog, where it could be
/// shown.
pub fn ends_after_install(code: Option<i32>) -> (r: bool)
    ensures
        r == (code == Some(0i32)),
{
    match code {
        Some(c) => c == 0,
        None => false,
    }
}

/// The program that shows a window: the installed one, where it is known and
/// exists, and the running one otherwise.
pub fn window_program(installed: Option<String>, installed_exists: bool, running: Option<String>)
    -> (r: Option<String>)
    ensures
        r == (if installed is Some && installed_exists {
            installed
        } else {
            running
        }),
{
    if installed.is_some() && installed_exists {
        installed
    } else {
        running
    }
}

// ── Updates ─────────────────────────────────────────────────────────────────

/// Whether updates are looked for at the start. `setting` is the setting of the
/// user, where the configuration can be read.
pub fn checks_for_update(setting: Option<bool>) -> (r: bool)
    ensures
        r == (setting != Some(false)),
{
    match setting {
        Some(s) => s,
        None => true,
    }
}

/// The arguments of the process that offers the update that a file describes.
pub fn update_dialog_args(info_path: &str) -> (r: Vec<String>)
    ensures
        text::texts(r@) == seq!["--window"@, "update"@, "--update-info"@, info_path@],
{
    let mut r: Vec<String> = Vec::new();
    r.push("--window".to_owned());
    r.push("update".to_owned());
    r.push("--update-info".to_owned());
    r.push(info_path.to_owned());
    assert(text::texts(r@) =~= seq!["--window"@, "update"@, "--update-info"@, info_path@]);
    r
}

/// Where the look for an update at the start stands.
#[derive(Debug, Clone, Copy, PartialEq, Eq, Structural)]
pub enum LookPhase {
    /// The server is being asked.
    Asking,
    /// An update was found; it is being written to a file.
    Saving,
    /// The update is being offered.
    Offering,
    /// The update is in place; the program is being started anew.
    Relaunching,
    /// The program goes on.
    Over,
}

/// What to do next.
#[derive(Debug)]
pub enum LookAction {
    /// Ask for the latest release at this address.
    Ask { url: String },
    /// Write the update to a file.
    Save { info: UpdateInfo },
    /// Show the dialog that offers the update, by starting the program with
    /// these arguments.
    Offer { args: Vec<String> },
    /// Start the program anew, and end.
    Relaunch,
    /// Go on.
    GoOn,
}

/// What came of an action.
#[derive(Debug)]
pub enum LookEvent {
    /// What the server was found to have.
    Checked(UpdateCheckResult),
    /// The file that the update was written to; `None` where it could not be.
    Saved(Option<String>),
    /// The exit code of the dialog; `None` where it could not be shown or told.
    Closed(Option<i32>),
}

/// The look for an update at the start.
#[derive(Debug)]
pub struct StartupLook {
    pub phase: LookPhase,
    /// The repository that is asked.
    pub repo: String,
    /// The update that was found, if any.
    pub found: Option<UpdateInfo>,
    /// The file that it was written to.
    pub info_path: String,
}

/// The phase after an event; one that does not fit changes nothing. Only an
/// update that was put in place starts the program anew.
pub open spec fn after_look(p: LookPhase, e: LookEvent) -> LookPhase {
    match (p, e) {
        (LookPhase::Asking, LookEvent::Checked(UpdateCheckResult::Available(_))) => LookPhase::Saving,
        (LookPhase::Asking, LookEvent::Checked(_)) => LookPhase::Over,
        (LookPhase::Saving, LookEvent::Saved(Some(_))) => LookPhase::Offering,
        (LookPhase::Saving, LookEvent::Saved(None)) => LookPhase::Over,
        (LookPhase::Offering, LookEvent::Closed(code)) => if code == Some(0i32) {
            LookPhase::Relaunching
        } else {
            LookPhase::Over
        },
        _ => p,
    }
}

/// Begin to look for an update. `settings` are the settings of the user, where
/// the configuration can be read: whether to look, and which repository to ask.
pub fn check_for_update_on_startup(settings: Option<(bool, String)>) -> (r: StartupLook)
    ensures
        r.phase == (match settings {
            Some(s) => if s.0 {
                LookPhase::Asking
            } else {
                LookPhase::Over
            },
            None => LookPhase::Asking,
        }),
        r.repo@ == (match settings {
            Some(s) => s.1@,
            None => ""@,
        }),
        r.found is None,
        r.info_path@ == ""@,
{
    let setting: Option<bool> = match &settings {
        Some(s) => Some(s.0),
        None => None,
    };
    let repo: String = match settings {
        Some((_, repo)) => repo,
        None => "".to_owned(),
    };
    StartupLook {
        phase: if checks_for_update(setting) {
            LookPhase::Asking
        } else {
            LookPhase::Over
        },
        repo,
        found: None,
        info_path: "".to_owned(),
    }
}

impl StartupLook {
    /// An update that is to be written was found.
    pub open spec fn wf(self) -> bool {
        self.phase is Saving ==> self.found is Some
    }

    /// What to do next.
    pub fn action(&self) -> (r: LookAction)
        requires
            self.wf(),
        ensures
            match self.phase {
                LookPhase::Asking => r matches LookAction::Ask { url } && url@
                    == updater::api_url_of(
                    if self.repo@.len() == 0 {
                        updater::DEFAULT_REPO@
                    } else {
                        self.repo@
                    },
                ),
                LookPhase::Saving => r matches LookAction::Save { info } && Some(info)
                    == self.found,
                LookPhase::Offering => r matches LookAction::Offer { args } && text::texts(args@)
                    == seq!["--window"@, "update"@, "--update-info"@, self.info_path@],
                LookPhase::Relaunching => r is Relaunch,
                LookPhase::Over => r is GoOn,
            },
    {
        match self.phase {
            LookPhase::Asking => LookAction::Ask {
                url: github_api_url(&effective_repo(&self.repo)),
            },
            LookPhase::Saving => match &self.found {
                Some(info) => LookAction::Save { info: info.clone() },
                None => LookAction::GoOn,
            },
            LookPhase::Offering => LookAction::Offer { args: update_dialog_args(&self.info_path) },
            LookPhase::Relaunching => LookAction::Relaunch,
            LookPhase::Over => LookAction::GoOn,
        }
    }

    /// Take in what came of an action.
    pub fn resume(&mut self, event: LookEvent)
        requires
            old(self).wf(),
        ensures
            final(self).wf(),
            final(self).phase == after_look(old(self).phase, event),
            final(self).repo == old(self).repo,
            final(self).found == (match (old(self).phase, event) {
                (LookPhase::Asking, LookEvent::Checked(UpdateCheckResult::Available(info))) => Some(
                    info,
                ),
                _ => old(self).found,
            }),
            final(self).info_path == (match (old(self).phase, event) {
                (LookPhase::Saving, LookEvent::Saved(Some(path))) => path,
                _ => old(self).info_path,
            }),
    {
        match (self.phase, event) {
            (LookPhase::Asking, LookEvent::Checked(result)) => match result {
                UpdateCheckResult::Available(info) => {
                    self.found = Some(info);
                    self.phase = LookPhase::Saving;
                },
                _ => {
                    self.phase = LookPhase::Over;
                },
            },
            (LookPhase::Saving, LookEvent::Saved(path)) => match path {
                Some(p) => {
                    self.info_path = p;
                    self.phase = LookPhase::Offering;
                },
                None => {
                    self.phase = LookPhase::Over;
                },
            },
            (LookPhase::Offering, LookEvent::Closed(code)) => {
                self.phase = match code {
                    Some(c) => {
                        if c == 0 {
                            LookPhase::Relaunching
                        } else {
                            LookPhase::Over
                        }
                    },
                    None => LookPhase::Over,
                };
            },
            _ => {},
        }
    }
}

// ── Configuration ───────────────────────────────────────────────────────────

/// Whether the wizard of the first start is shown: no server is configured.
pub fn needs_wizard(config: &Config) -> (r: bool)
    ensures
        r == (config.server.url@.len() == 0),
{
    config.server.url.as_str().is_empty()
}

/// Whether the configuration is read again after the wizard, by the exit code of
/// its process.
pub fn wizard_ended(code: Option<i32>) -> (r: bool)
    ensures
        r == (code == Some(0i32)),
{
    match code {
        Some(c) => c == 0,
        None => false,
    }
}

/// Whether files are uploaded: a server and a key are configured.
pub fn wants_client(config: &Config) -> (r: bool)
    ensures
        r == (config.server.url@.len() > 0 && config.server.api_key@.len() > 0),
{
    !config.server.url.as_str().is_empty() && !config.server.api_key.as_str().is_empty()
}

// ── Laws ────────────────────────────────────────────────────────────────────

/// The phase of a look for an update after some events.
pub open spec fn look_run(p: LookPhase, events: Seq<LookEvent>) -> LookPhase
    decreases events.len(),
{
    if events.len() == 0 {
        p
    } else {
        after_look(look_run(p, events.drop_last()), events.last())
    }
}

/// The program is started anew at its start only after an update was found, and
/// the dialog that offered it ended with the update in place.
pub proof fn law_relaunch_follows_an_update(events: Seq<LookEvent>)
    requires
        look_run(LookPhase::Asking, events) is Relaunching,
    ensures
        exists|i: int, j: int|
            0 <= i < j < events.len() && (#[trigger] events[i] matches LookEvent::Checked(
                UpdateCheckResult::Available(_),
            )) && #[trigger] events[j] == LookEvent::Closed(Some(0i32)),
    decreases events.len(),
{
    let before = events.drop_last();
    let last = events.len() - 1;
    if look_run(LookPhase::Asking, before) is Relaunching {
        law_relaunch_follows_an_update(before);
        let (i, j) = choose|i: int, j: int|
            0 <= i < j < before.len() && (#[trigger] before[i] matches LookEvent::Checked(
                UpdateCheckResult::Available(_),
            )) && #[trigger] before[j] == LookEvent::Closed(Some(0i32));
        assert(events[i] == before[i]);
        assert(events[j] == before[j]);
    } else {
        lemma_offer_follows_a_find(before);
        let i = choose|i: int|
            0 <= i < before.len() && (#[trigger] before[i] matches LookEvent::Checked(
                UpdateCheckResult::Available(_),
            ));
        assert(events[i] == before[i]);
        assert(events[last] == LookEvent::Closed(Some(0i32)));
    }
}

proof fn lemma_offer_follows_a_find(events: Seq<LookEvent>)
    requires
        look_run(LookPhase::Asking, events) is Offering || look_run(
            LookPhase::Asking,
            events,
        ) is Saving,
    ensures
        exists|i: int|
            0 <= i < events.len() && (#[trigger] events[i] matches LookEvent::Checked(
                UpdateCheckResult::Available(_),
            )),
    decreases events.len(),
{
    let before = events.drop_last();
    let p = look_run(LookPhase::Asking, before);
    if p is Offering || p is Saving {
        lemma_offer_follows_a_find(before);
        let i = choose|i: int|
            0 <= i < before.len() && (#[trigger] before[i] matches LookEvent::Checked(
                UpdateCheckResult::Available(_),
            ));
        assert(events[i] == before[i]);
    } else {
        assert(events[events.len() - 1] == events.last());
    }
}

/// The arguments with which a dialog is shown are read back: a process that is
/// started with them shows that dialog.
pub proof fn law_dialog_args_read_back(program: Seq<char>, old_version: Seq<char>, path: Seq<char>)
    requires
        program != "--old-version"@,
        program != "--update-info"@,
    ensures
        argument_after(
            seq![program, "--window"@, "install-update"@, "--old-version"@, old_version],
            "--old-version"@,
        ) == Some(old_version),
        argument_after(
            seq![program, "--window"@, "update"@, "--update-info"@, path],
            "--update-info"@,
        ) == Some(path),
{
    reveal_strlit("--window");
    reveal_strlit("install-update");
    reveal_strlit("update");
    reveal_strlit("--old-version");
    reveal_strlit("--update-info");
    assert("--window"@.len() == 8 && "--old-version"@.len() == 13 && "--update-info"@.len() == 13);
    assert("install-update"@.len() == 14 && "update"@.len() == 6);
    lemma_after_three(program, "--window"@, "install-update"@, "--old-version"@, old_version);
    lemma_after_three(program, "--window"@, "update"@, "--update-info"@, path);
}

proof fn lemma_after_three(
    a: Seq<char>,
    b: Seq<char>,
    c: Seq<char>,
    flag: Seq<char>,
    value: Seq<char>,
)
    requires
        a != flag,
        b != flag,
        c != flag,
    ensures
        argument_after(seq![a, b, c, flag, value], flag) == Some(value),
{
    let v0 = seq![a, b, c, flag, value];
    let v1 = seq![b, c, flag, value];
    let v2 = seq![c, flag, value];
    let v3 = seq![flag, value];
    assert(v0.drop_first() =~= v1);
    assert(v1.drop_first() =~= v2);
    assert(v2.drop_first() =~= v3);
    assert(argument_after(v3, flag) == Some(value));
    assert(argument_after(v2, flag) == Some(value));
    assert(argument_after(v1, flag) == Some(value));
}

/// The value of an argument is what follows the first place where it stands.
pub proof fn law_argument_value_follows_it(
    before: Seq<Seq<char>>,
    flag: Seq<char>,
    value: Seq<char>,
    rest: Seq<Seq<char>>,
)
    requires
        !before.contains(flag),
    ensures
        argument_after(before + seq![flag, value] + rest, flag) == Some(value),
    decreases before.len(),
{
    let all = before + seq![flag, value] + rest;
    if before.len() == 0 {
        assert(all[0] == flag && all[1] == value);
    } else {
        let b = before.drop_first();
        assert(all[0] == before[0]);
        assert(before.contains(before[0]));
        assert forall|i: int| 0 <= i < b.len() implies b[i] != flag by {
            assert(before[i + 1] == b[i]);
        }
        law_argument_value_follows_it(b, flag, value, rest);
        assert(all.drop_first() =~= b + seq![flag, value] + rest);
    }
}

/// An argument that is not there, or has nothing behind it, has no value.
pub proof fn law_missing_argument_has_no_value(args: Seq<Seq<char>>, flag: Seq<char>)
    requires
        forall|i: int| 0 <= i < args.len() - 1 ==> #[trigger] args[i] != flag,
    ensures
        argument_after(args, flag) is None,
    decreases args.len(),
{
    if args.len() >= 2 {
        let d = args.drop_first();
        assert forall|i: int| 0 <= i < d.len() - 1 implies #[trigger] d[i] != flag by {
            assert(args[i + 1] == d[i]);
        }
        assert(args[0] != flag);
        law_missing_argument_has_no_value(d, flag);
    }
}

/// A window that the program shows in a process of its own is the one that the
/// process is asked for.
pub proof fn law_window_is_asked_for_by_its_name(r: WindowRequest, args: Seq<Seq<char>>)
    ensures
        is_request(r, state::window_name(WindowKind::Settings), args) ==> r is Settings,
        is_request(r, state::window_name(WindowKind::About), args) ==> r is About,
        is_request(r, state::window_name(WindowKind::UploadLog), args) ==> r is UploadLog,
        is_request(r, state::window_name(WindowKind::TrashLog), args) ==> r is TrashLog,
        is_request(r, state::window_name(WindowKind::Update), args) ==> r is Update
            || r is UpdateWithoutInfo,
{
    reveal_strlit("install");
    reveal_strlit("install-update");
    reveal_strlit("wizard");
    reveal_strlit("settings");
    reveal_strlit("about");
    reveal_strlit("update");
    reveal_strlit("log");
    reveal_strlit("trash-log");
    assert("settings"@[0] != "install"@[0]);
    assert("settings"@[0] != "install-update"@[0]);
    assert("settings"@[0] != "wizard"@[0]);
    assert("about"@[0] != "install"@[0]);
    assert("about"@[0] != "install-update"@[0]);
    assert("about"@[0] != "wizard"@[0]);
    assert("about"@[0] != "settings"@[0]);
    assert("update"@[0] != "install"@[0]);
    assert("update"@[0] != "install-update"@[0]);
    assert("update"@[0] != "wizard"@[0]);
    assert("update"@[0] != "settings"@[0]);
    assert("update"@[0] != "about"@[0]);
    assert("log"@[0] != "install"@[0]);
    assert("log"@[0] != "install-update"@[0]);
    assert("log"@[0] != "wizard"@[0]);
    assert("log"@[0] != "settings"@[0]);
    assert("log"@[0] != "about"@[0]);
    assert("log"@[0] != "update"@[0]);
    assert("trash-log"@[0] != "install"@[0]);
    assert("trash-log"@[0] != "install-update"@[0]);
    assert("trash-log"@[0] != "wizard"@[0]);
    assert("trash-log"@[0] != "settings"@[0]);
    assert("trash-log"@[0] != "about"@[0]);
    assert("trash-log"@[0] != "update"@[0]);
    assert("trash-log"@[0] != "log"@[0]);
}

/// The installed program looks for an update; one that the user chose to run from
/// where it is, or of which it cannot be told, runs; and any other one offers to
/// be installed, offers the update that it is, or starts the installed one.
pub proof fn law_start_depends_on_what_is_installed(s: StartStep, i: InstallState)
    requires
        is_start(s, i),
    ensures
        i.running_installed == Some(true) <==> s is CheckForUpdate,
        i.running_installed is None || (i.running_installed == Some(false) && i.portable) <==> s is
            Continue,
        i.running_installed == Some(false) && !i.portable ==> (s is OfferInstall
            <==> !i.installed_exists),
        i.running_installed == Some(false) && !i.portable && i.installed_exists
            && i.installed_version is None ==> s is OfferUpdate,
        s is Relaunch ==> i.installed_exists && i.installed_version is Some && !i.portable
            && !install::newer_than_installed(
            text::opt_text(i.installed_version),
            install::VERSION@,
        ),
        i.running_installed == Some(false) && !i.portable && i.installed_exists
            && i.installed_version is Some && install::newer_than_installed(
            text::opt_text(i.installed_version),
            install::VERSION@,
        ) ==> (s matches StartStep::OfferUpdate { old_version } && Some(old_version)
            == i.installed_version),
{
}

/// The look for an update at the start goes on only while there is something to
/// go on with: an update that was found is written down, one that was written
/// down is offered, and only where it was put in place the program starts anew.
pub proof fn law_look_goes_step_by_step(info: UpdateInfo, path: String, code: i32, e: LookEvent)
    ensures
        after_look(
            LookPhase::Asking,
            LookEvent::Checked(UpdateCheckResult::Available(info)),
        ) is Saving,
        after_look(LookPhase::Asking, LookEvent::Checked(UpdateCheckResult::UpToDate)) is Over,
        after_look(LookPhase::Asking, LookEvent::Checked(UpdateCheckResult::Failed(path))) is Over,
        after_look(LookPhase::Saving, LookEvent::Saved(Some(path))) is Offering,
        after_look(LookPhase::Saving, LookEvent::Saved(None)) is Over,
        after_look(LookPhase::Offering, LookEvent::Closed(Some(0i32))) is Relaunching,
        code != 0 ==> after_look(LookPhase::Offering, LookEvent::Closed(Some(code))) is Over,
        after_look(LookPhase::Offering, LookEvent::Closed(None)) is Over,
        after_look(LookPhase::Relaunching, e) is Relaunching,
        after_look(LookPhase::Over, e) is Over,
        !(e is Checked) ==> after_look(LookPhase::Asking, e) is Asking,
        !(e is Saved) ==> after_look(LookPhase::Saving, e) is Saving,
        !(e is Closed) ==> after_look(LookPhase::Offering, e) is Offering,
{
}

} // verus!
