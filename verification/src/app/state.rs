//! The state of the running application.
//!
//! Whoever runs the application calls [`AppState::tick`] several times a second
//! and does what it says, tells the state what happened, and shows its tray.
//! Times are milliseconds on a clock that does not go back.

use vstd::prelude::*;

use crate::clock;
use crate::config::Config;
use crate::text;
use crate::text::{concat2, concat3, str_eq, trim_start_matches};
use crate::ui::notifications;
use crate::ui::notifications::{Notifications, Toast};
use crate::ui::tray;
use crate::ui::tray::{TrayAction, TrayApp, TrayModel, TrayState, TrayStatus};
use crate::updater::{
    check_interval_from_hours, UpdateCheckResult, UpdateInfo, STARTUP_DELAY_SECS,
};
use crate::upload::queue::QueueStats;
use crate::watch::engine::EngineHealth;

verus! {

broadcast use vstd::seq::group_seq_axioms;

/// Milliseconds between two updates of the tray.
pub const STATS_INTERVAL_MS: u64 = 2000;

/// Milliseconds between two pings of the server.
pub const PING_INTERVAL_MS: u64 = 30000;

/// Milliseconds between two comparisons of the watched folders.
pub const FOLDER_RECONCILE_INTERVAL_MS: u64 = 2000;

/// Milliseconds between two prunings of the logs.
pub const LOG_PRUNE_INTERVAL_MS: u64 = 3600000;

/// Milliseconds between two cleanings of the trash.
pub const TRASH_CLEANUP_INTERVAL_MS: u64 = 3600000;

// ── Windows ─────────────────────────────────────────────────────────────────

/// A window of the application.
#[derive(Debug, Clone, Copy, PartialEq, Eq, Structural)]
pub enum WindowKind {
    Settings,
    About,
    UploadLog,
    TrashLog,
    Update,
}

/// What follows when a window was closed.
#[derive(Debug, Clone, Copy, PartialEq, Eq, Structural)]
pub enum WindowFollowUp {
    Nothing,
    /// The configuration is read again.
    ReloadConfig,
    /// The updated program is started.
    Relaunch,
}

/// What follows when the process of a window ended with an exit code. The
/// settings may have been changed, whatever the code says; the dialog of an
/// update tells by its code that the update is in place.
pub fn window_follow_up(kind: WindowKind, code: Option<i32>) -> (r: WindowFollowUp)
    ensures
        r == (match kind {
            WindowKind::Settings => WindowFollowUp::ReloadConfig,
            WindowKind::Update => if code == Some(0i32) {
                WindowFollowUp::Relaunch
            } else {
                WindowFollowUp::Nothing
            },
            _ => WindowFollowUp::Nothing,
        }),
{
    match kind {
        WindowKind::Settings => WindowFollowUp::ReloadConfig,
        WindowKind::Update => match code {
            Some(c) => {
                if c == 0 {
                    WindowFollowUp::Relaunch
                } else {
                    WindowFollowUp::Nothing
                }
            },
            None => WindowFollowUp::Nothing,
        },
        _ => WindowFollowUp::Nothing,
    }
}

/// Which windows are open. Each is open at most once.
#[derive(Debug, Clone, Copy, PartialEq, Eq, Structural)]
pub struct WindowOpenTracker {
    pub settings: bool,
    pub about: bool,
    pub upload_log: bool,
    pub trash_log: bool,
    pub update: bool,
}

impl WindowOpenTracker {
    /// Whether a window is open.
    pub open spec fn shows(self, kind: WindowKind) -> bool {
        match kind {
            WindowKind::Settings => self.settings,
            WindowKind::About => self.about,
            WindowKind::UploadLog => self.upload_log,
            WindowKind::TrashLog => self.trash_log,
            WindowKind::Update => self.update,
        }
    }

    /// The tracker with a window opened or closed.
    pub open spec fn with(self, kind: WindowKind, shown: bool) -> WindowOpenTracker {
        match kind {
            WindowKind::Settings => WindowOpenTracker { settings: shown, ..self },
            WindowKind::About => WindowOpenTracker { about: shown, ..self },
            WindowKind::UploadLog => WindowOpenTracker { upload_log: shown, ..self },
            WindowKind::TrashLog => WindowOpenTracker { trash_log: shown, ..self },
            WindowKind::Update => WindowOpenTracker { update: shown, ..self },
        }
    }

    /// No window is open.
    pub fn new() -> (r: WindowOpenTracker)
        ensures
            forall|k: WindowKind| !#[trigger] r.shows(k),
    {
        WindowOpenTracker {
            settings: false,
            about: false,
            upload_log: false,
            trash_log: false,
            update: false,
        }
    }

    /// Whether a window is open.
    pub fn is_open(&self, kind: WindowKind) -> (r: bool)
        ensures
            r == self.shows(kind),
    {
        match kind {
            WindowKind::Settings => self.settings,
            WindowKind::About => self.about,
            WindowKind::UploadLog => self.upload_log,
            WindowKind::TrashLog => self.trash_log,
            WindowKind::Update => self.update,
        }
    }

    /// Note that a window was opened or closed.
    pub fn set(&mut self, kind: WindowKind, shown: bool)
        ensures
            *final(self) == old(self).with(kind, shown),
    {
        match kind {
            WindowKind::Settings => {
                self.settings = shown;
            },
            WindowKind::About => {
                self.about = shown;
            },
            WindowKind::UploadLog => {
                self.upload_log = shown;
            },
            WindowKind::TrashLog => {
                self.trash_log = shown;
            },
            WindowKind::Update => {
                self.update = shown;
            },
        }
    }
}

/// The name by which a process is told to show a window.
pub open spec fn window_name(kind: WindowKind) -> Seq<char> {
    match kind {
        WindowKind::Settings => "settings"@,
        WindowKind::About => "about"@,
        WindowKind::UploadLog => "log"@,
        WindowKind::TrashLog => "trash-log"@,
        WindowKind::Update => "update"@,
    }
}

/// The name by which a process is told to show a window.
pub fn window_arg(kind: WindowKind) -> (r: &'static str)
    ensures
        r@ == window_name(kind),
{
    match kind {
        WindowKind::Settings => "settings",
        WindowKind::About => "about",
        WindowKind::UploadLog => "log",
        WindowKind::TrashLog => "trash-log",
        WindowKind::Update => "update",
    }
}

// ── State ───────────────────────────────────────────────────────────────────

/// What the application has and is doing.
#[derive(Debug, Clone, Copy, PartialEq, Eq, Structural)]
pub struct AppFlags {
    /// There is a client for the server.
    pub has_client: bool,
    /// The upload pipeline is running.
    pub has_pipeline: bool,
    /// The user paused uploads.
    pub paused: bool,
    /// There was something to upload when the tray was last updated.
    pub was_syncing: bool,
    /// The last ping failed.
    pub server_offline: bool,
    /// A ping is under way.
    pub ping_in_flight: bool,
    /// An update was downloaded and takes effect with a restart.
    pub update_ready: bool,
}

/// When things were last done.
#[derive(Debug, Clone, Copy, PartialEq, Eq, Structural)]
pub struct AppTimers {
    pub stats: u64,
    pub trash_cleanup: u64,
    pub log_prune: u64,
    pub folder_reconcile: u64,
    pub update_check: u64,
    pub ping: u64,
}

/// The state of the running application.
pub struct AppState {
    config: Config,
    flags: AppFlags,
    timers: AppTimers,
    windows: WindowOpenTracker,
    notifications: Notifications,
    pending_update: Option<UpdateInfo>,
    tray: TrayApp,
}

/// The contents of an [`AppState`].
#[verifier::ext_equal]
pub struct AppModel {
    pub config: Config,
    pub flags: AppFlags,
    pub timers: AppTimers,
    pub windows: WindowOpenTracker,
    pub notifications: Notifications,
    /// The update that was found, if any.
    pub pending_update: Option<UpdateInfo>,
    pub tray: TrayModel,
}

impl View for AppState {
    type V = AppModel;

    closed spec fn view(&self) -> AppModel {
        AppModel {
            config: self.config,
            flags: self.flags,
            timers: self.timers,
            windows: self.windows,
            notifications: self.notifications,
            pending_update: self.pending_update,
            tray: self.tray@,
        }
    }
}

/// What the server is called in the tray: its address without the scheme.
pub open spec fn display_url(url: Seq<char>) -> Seq<char> {
    text::without_prefixes(text::without_prefixes(url, "https://"@), "http://"@)
}

/// What the server is called in the tray.
pub fn url_display(url: &str) -> (r: String)
    ensures
        r@ == display_url(url@),
{
    trim_start_matches(&trim_start_matches(url, "https://"), "http://")
}

/// Whether something is due that is done every `interval` milliseconds.
pub open spec fn is_due(now: u64, last: u64, interval: u64) -> bool {
    now - last >= interval
}

fn due(now: u64, last: u64, interval: u64) -> (r: bool)
    ensures
        r == is_due(now, last, interval),
{
    now >= last && now - last >= interval
}

/// The tray with another state.
pub open spec fn showing(m: AppModel, state: TrayStatus) -> AppModel {
    AppModel { tray: TrayModel { state, ..m.tray }, ..m }
}

/// The tray with the server reachable or not.
pub open spec fn showing_server(m: AppModel, connected: bool) -> AppModel {
    AppModel {
        tray: TrayModel {
            server_status: tray::server_line(display_url(m.config.server.url@), connected),
            ..m.tray
        },
        ..m
    }
}

// ── Commands ────────────────────────────────────────────────────────────────

/// What is to be done for the user.
#[derive(Debug)]
pub enum AppCommand {
    Nothing,
    PausePipeline,
    ResumePipeline,
    /// Show a window in a process of its own.
    OpenWindow(WindowKind),
    /// Check for updates at once.
    CheckForUpdates,
    /// Show the window that offers this update.
    ShowUpdate(UpdateInfo),
    /// End, and start the updated program.
    Restart,
}

/// The window that an action shows, if it shows one.
pub open spec fn window_of(a: TrayAction) -> Option<WindowKind> {
    match a {
        TrayAction::OpenSettings => Some(WindowKind::Settings),
        TrayAction::About => Some(WindowKind::About),
        TrayAction::ViewLog => Some(WindowKind::UploadLog),
        TrayAction::ViewTrash => Some(WindowKind::TrashLog),
        _ => None,
    }
}

/// What an action of the user leads to. A window that is open is not shown
/// again, and a restart takes an update that is ready.
pub open spec fn command_of(m: AppModel, a: TrayAction) -> AppCommand {
    match window_of(a) {
        Some(kind) => if m.windows.shows(kind) {
            AppCommand::Nothing
        } else {
            AppCommand::OpenWindow(kind)
        },
        None => match a {
            TrayAction::Pause => if m.flags.has_pipeline {
                AppCommand::PausePipeline
            } else {
                AppCommand::Nothing
            },
            TrayAction::Resume => if m.flags.has_pipeline {
                AppCommand::ResumePipeline
            } else {
                AppCommand::Nothing
            },
            TrayAction::CheckForUpdates => AppCommand::CheckForUpdates,
            TrayAction::OpenUpdateDialog => match m.pending_update {
                Some(info) => if m.windows.update {
                    AppCommand::Nothing
                } else {
                    AppCommand::ShowUpdate(info)
                },
                None => AppCommand::Nothing,
            },
            TrayAction::RestartToUpdate => if m.flags.update_ready {
                AppCommand::Restart
            } else {
                AppCommand::Nothing
            },
            _ => AppCommand::Nothing,
        },
    }
}

/// The state after an action of the user.
pub open spec fn after_action(m: AppModel, a: TrayAction) -> AppModel {
    match command_of(m, a) {
        AppCommand::PausePipeline => showing(
            AppModel { flags: AppFlags { paused: true, ..m.flags }, ..m },
            TrayStatus::Paused,
        ),
        AppCommand::ResumePipeline => showing(
            AppModel { flags: AppFlags { paused: false, ..m.flags }, ..m },
            TrayStatus::Idle,
        ),
        AppCommand::OpenWindow(kind) => AppModel { windows: m.windows.with(kind, true), ..m },
        AppCommand::ShowUpdate(_) => AppModel {
            windows: m.windows.with(WindowKind::Update, true),
            ..m
        },
        _ => m,
    }
}

/// What the actions of the user lead to.
#[derive(Debug)]
pub struct ActionOutcome {
    pub commands: Vec<AppCommand>,
    /// Whether the application ends.
    pub quit: bool,
}

/// The state after several actions.
pub open spec fn after_actions(m: AppModel, v: Seq<TrayAction>) -> AppModel
    decreases v.len(),
{
    if v.len() == 0 {
        m
    } else {
        after_action(after_actions(m, v.drop_last()), v.last())
    }
}

/// What several actions lead to, in order.
pub open spec fn commands_of(m: AppModel, v: Seq<TrayAction>) -> Seq<AppCommand>
    decreases v.len(),
{
    if v.len() == 0 {
        Seq::empty()
    } else {
        let before = commands_of(m, v.drop_last());
        if v.last() is Quit {
            before
        } else {
            before.push(command_of(after_actions(m, v.drop_last()), v.last()))
        }
    }
}

// ── Tray ────────────────────────────────────────────────────────────────────

/// Whether there is something to upload.
pub open spec fn is_syncing(s: QueueStats) -> bool {
    s.uploading + s.pending > 0
}

/// What the tray says while there is something to upload.
pub open spec fn syncing_status(s: QueueStats) -> TrayStatus {
    TrayStatus::Syncing {
        current: (s.uploading % 0x1_0000_0000) as u32,
        total: ((s.uploading + s.pending) % 0x1_0000_0000) as u32,
    }
}

/// What the tray says. A watcher that has given up comes before everything;
/// uploads under way come before a watcher that is being restarted, and before
/// a server that did not answer a ping.
pub open spec fn tray_status(health: EngineHealth, s: QueueStats, offline: bool) -> TrayStatus {
    match health {
        EngineHealth::Failed => TrayStatus::Error("one or more watchers are offline"@),
        EngineHealth::Degraded => if is_syncing(s) {
            syncing_status(s)
        } else {
            TrayStatus::Error("watcher degraded — auto-restart in progress"@)
        },
        EngineHealth::Healthy => if is_syncing(s) {
            syncing_status(s)
        } else if offline {
            TrayStatus::Offline
        } else {
            TrayStatus::Idle
        },
    }
}

/// Whether the tray is updated from the queue: it is time, uploads are not
/// paused, and the queue could be read.
pub open spec fn refreshes(m: AppModel, now: u64, stats: Option<QueueStats>) -> bool {
    is_due(now, m.timers.stats, STATS_INTERVAL_MS) && !m.flags.paused && m.flags.has_pipeline
        && stats is Some
}

/// The state after the tray was updated.
pub open spec fn after_stats(
    m: AppModel,
    now: u64,
    health: EngineHealth,
    stats: Option<QueueStats>,
) -> AppModel {
    let timed = if is_due(now, m.timers.stats, STATS_INTERVAL_MS) {
        AppModel { timers: AppTimers { stats: now, ..m.timers }, ..m }
    } else {
        m
    };
    if refreshes(m, now, stats) {
        showing(
            AppModel {
                flags: AppFlags { was_syncing: is_syncing(stats->0), ..m.flags },
                ..timed
            },
            tray_status(health, stats->0, m.flags.server_offline),
        )
    } else {
        timed
    }
}

/// The number of uploads that the user is told of: all that are done, once the
/// queue runs empty; none otherwise.
pub open spec fn finished_uploads(m: AppModel, now: u64, stats: Option<QueueStats>) -> u32 {
    if refreshes(m, now, stats) && m.flags.was_syncing && !is_syncing(stats->0) {
        (stats->0.completed % 0x1_0000_0000) as u32
    } else {
        0
    }
}

// ── Periodic work ───────────────────────────────────────────────────────────

/// Whether it is time to check for updates again.
pub open spec fn update_check_due(m: AppModel, now: u64) -> bool {
    let hours = m.config.advanced.update_check_interval_hours;
    m.config.advanced.check_for_updates && now - m.timers.update_check >= 1000 * (if hours == 0 {
        u64::MAX as int
    } else {
        3600 * hours
    })
}

/// Whether it is time to ping the server. One ping is under way at a time.
pub open spec fn ping_due(m: AppModel, now: u64) -> bool {
    !m.flags.ping_in_flight && is_due(now, m.timers.ping, PING_INTERVAL_MS) && m.flags.has_client
}

/// What is due.
#[derive(Debug)]
pub struct TickPlan {
    /// Check for updates.
    pub update_check: Option<UpdateCheckPlan>,
    /// Ping the server.
    pub ping: bool,
    /// Compare the watched folders with what is watched.
    pub reconcile: bool,
    /// Prune the logs.
    pub prune_logs: bool,
    /// Clean the trash.
    pub clean_trash: bool,
}

/// How to check for updates.
#[derive(Debug)]
pub struct UpdateCheckPlan {
    pub repo: String,
    /// Seconds to wait first.
    pub delay_secs: u64,
}

/// What is to be done at the start.
#[derive(Debug)]
pub struct StartPlan {
    /// Check for updates.
    pub update_check: Option<UpdateCheckPlan>,
    /// Prune the logs.
    pub prune_logs: bool,
    /// Clean the trash.
    pub clean_trash: bool,
}

/// The state after the start.
pub open spec fn after_init(m: AppModel, now: u64) -> AppModel {
    let shown = if m.flags.has_client {
        showing_server(
            AppModel { flags: AppFlags { has_pipeline: true, ..m.flags }, ..m },
            true,
        )
    } else {
        showing(m, TrayStatus::Error("Server not configured"@))
    };
    AppModel {
        timers: AppTimers {
            log_prune: now,
            trash_cleanup: now,
            update_check: if m.config.advanced.check_for_updates {
                now
            } else {
                m.timers.update_check
            },
            ..m.timers
        },
        ..shown
    }
}

/// The state after what is due was given out.
pub open spec fn after_tick(m: AppModel, now: u64) -> AppModel {
    AppModel {
        flags: AppFlags { ping_in_flight: m.flags.ping_in_flight || ping_due(m, now), ..m.flags },
        timers: AppTimers {
            update_check: if update_check_due(m, now) {
                now
            } else {
                m.timers.update_check
            },
            ping: if ping_due(m, now) {
                now
            } else {
                m.timers.ping
            },
            folder_reconcile: if is_due(
                now,
                m.timers.folder_reconcile,
                FOLDER_RECONCILE_INTERVAL_MS,
            ) {
                now
            } else {
                m.timers.folder_reconcile
            },
            log_prune: if is_due(now, m.timers.log_prune, LOG_PRUNE_INTERVAL_MS) {
                now
            } else {
                m.timers.log_prune
            },
            trash_cleanup: if is_due(now, m.timers.trash_cleanup, TRASH_CLEANUP_INTERVAL_MS) {
                now
            } else {
                m.timers.trash_cleanup
            },
            ..m.timers
        },
        ..m
    }
}

/// The state after a ping was answered.
pub open spec fn after_ping(m: AppModel, reachable: bool) -> AppModel {
    let answered = AppModel {
        flags: AppFlags { ping_in_flight: false, server_offline: !reachable, ..m.flags },
        ..m
    };
    if display_url(m.config.server.url@).len() > 0 {
        showing_server(answered, reachable)
    } else {
        answered
    }
}

// ── Configuration ───────────────────────────────────────────────────────────

/// Whether another server, or another key, was configured.
pub open spec fn server_changed(a: Config, b: Config) -> bool {
    a.server.url@ != b.server.url@ || a.server.api_key@ != b.server.api_key@
}

/// Whether a client for the new server is made: the server changed and is
/// configured.
pub open spec fn needs_client(a: Config, b: Config) -> bool {
    server_changed(a, b) && b.server.url@.len() > 0 && b.server.api_key@.len() > 0
}

// ── Updates ─────────────────────────────────────────────────────────────────

/// What follows a check for updates.
#[derive(Debug)]
pub struct UpdateReaction {
    pub toast: Option<Toast>,
    /// The update to download, if any.
    pub download: Option<UpdateInfo>,
}

/// The state after a download ended.
pub open spec fn after_download(m: AppModel, result: Result<String, String>) -> AppModel {
    match result {
        Ok(version) => AppModel {
            flags: AppFlags { update_ready: true, ..m.flags },
            tray: TrayModel {
                restart_version: Some(version@),
                update_version: None,
                ..m.tray
            },
            ..m
        },
        Err(_) => match m.pending_update {
            Some(info) => AppModel {
                tray: TrayModel { update_version: Some(info.new_version@), ..m.tray },
                ..m
            },
            None => m,
        },
    }
}

impl AppState {
    /// The state at start-up.
    pub fn new(config: Config, has_client: bool, now: u64) -> (r: AppState)
        ensures
            r@.config == config,
            r@.flags == (AppFlags {
                has_client,
                has_pipeline: false,
                paused: false,
                was_syncing: false,
                server_offline: false,
                ping_in_flight: false,
                update_ready: false,
            }),
            r@.timers == (AppTimers {
                stats: now,
                trash_cleanup: now,
                log_prune: now,
                folder_reconcile: now,
                update_check: now,
                ping: now,
            }),
            forall|k: WindowKind| !#[trigger] r@.windows.shows(k),
            r@.notifications.enabled == config.ui.show_notifications,
            r@.notifications.notify_on_complete == config.ui.notification_on_complete,
            r@.pending_update is None,
            r@.tray.state is Idle,
            r@.tray.server_status == "Server: (not configured)"@,
            r@.tray.update_version is None,
            r@.tray.restart_version is None,
    {
        let notifications: Notifications = Notifications::new(&config);
        AppState {
            config,
            flags: AppFlags {
                has_client,
                has_pipeline: false,
                paused: false,
                was_syncing: false,
                server_offline: false,
                ping_in_flight: false,
                update_ready: false,
            },
            timers: AppTimers {
                stats: now,
                trash_cleanup: now,
                log_prune: now,
                folder_reconcile: now,
                update_check: now,
                ping: now,
            },
            windows: WindowOpenTracker::new(),
            notifications,
            pending_update: None,
            tray: TrayApp::new(),
        }
    }

    /// The tray.
    pub fn tray(&self) -> (r: &TrayApp)
        ensures
            r@ == self@.tray,
    {
        &self.tray
    }

    /// The configuration.
    pub fn config(&self) -> (r: &Config)
        ensures
            *r == self@.config,
    {
        &self.config
    }

    /// Begin. Where there is a client, the pipeline was started before. The logs
    /// are pruned and the trash is cleaned at every start; updates are checked
    /// for where the settings say so.
    pub fn init(&mut self, now: u64) -> (r: StartPlan)
        ensures
            final(self)@ == after_init(old(self)@, now),
            r.prune_logs,
            r.clean_trash,
            r.update_check is Some == old(self)@.config.advanced.check_for_updates,
            r.update_check matches Some(p) ==> p.repo@ == old(self)@.config.advanced.update_repo@
                && p.delay_secs == STARTUP_DELAY_SECS,
    {
        if self.flags.has_client {
            self.flags.has_pipeline = true;
            let url: String = url_display(&self.config.server.url);
            self.tray.set_server_status(&url, true);
        } else {
            self.tray.update_state(TrayState::Error("Server not configured".to_owned()));
        }
        self.timers.log_prune = now;
        self.timers.trash_cleanup = now;
        let update_check: Option<UpdateCheckPlan> = if self.config.advanced.check_for_updates {
            Some(self.schedule_update_check(now, true))
        } else {
            None
        };
        StartPlan { update_check, prune_logs: true, clean_trash: true }
    }

    /// How to check for updates. One that comes with a delay waits until the
    /// start is over.
    pub fn schedule_update_check(&mut self, now: u64, with_delay: bool) -> (r: UpdateCheckPlan)
        ensures
            final(self)@ == (AppModel {
                timers: AppTimers { update_check: now, ..old(self)@.timers },
                ..old(self)@
            }),
            r.repo@ == old(self)@.config.advanced.update_repo@,
            r.delay_secs == (if with_delay {
                STARTUP_DELAY_SECS
            } else {
                0
            }),
    {
        self.timers.update_check = now;
        UpdateCheckPlan {
            repo: self.config.advanced.update_repo.clone(),
            delay_secs: if with_delay {
                STARTUP_DELAY_SECS
            } else {
                0
            },
        }
    }

    fn open_window(&mut self, kind: WindowKind) -> (r: AppCommand)
        ensures
            r == (if old(self)@.windows.shows(kind) {
                AppCommand::Nothing
            } else {
                AppCommand::OpenWindow(kind)
            }),
            final(self)@ == (if old(self)@.windows.shows(kind) {
                old(self)@
            } else {
                AppModel { windows: old(self)@.windows.with(kind, true), ..old(self)@ }
            }),
    {
        if self.windows.is_open(kind) {
            AppCommand::Nothing
        } else {
            self.windows.set(kind, true);
            AppCommand::OpenWindow(kind)
        }
    }

    /// Offer the update that was found, in a window of its own.
    pub fn open_update_dialog(&mut self) -> (r: AppCommand)
        ensures
            r == command_of(old(self)@, TrayAction::OpenUpdateDialog),
            final(self)@ == after_action(old(self)@, TrayAction::OpenUpdateDialog),
    {
        match &self.pending_update {
            None => AppCommand::Nothing,
            Some(info) => {
                if self.windows.update {
                    AppCommand::Nothing
                } else {
                    let info: UpdateInfo = info.clone();
                    self.windows.set(WindowKind::Update, true);
                    AppCommand::ShowUpdate(info)
                }
            },
        }
    }

    /// Note that a window was closed, or could not be shown.
    pub fn window_closed(&mut self, kind: WindowKind)
        ensures
            final(self)@ == (AppModel {
                windows: old(self)@.windows.with(kind, false),
                ..old(self)@
            }),
    {
        self.windows.set(kind, false);
    }

    /// Take in an action of the user.
    pub fn handle_tray_action(&mut self, action: TrayAction) -> (r: AppCommand)
        ensures
            r == command_of(old(self)@, action),
            final(self)@ == after_action(old(self)@, action),
    {
        match action {
            TrayAction::Pause => {
                if self.flags.has_pipeline {
                    self.flags.paused = true;
                    self.tray.update_state(TrayState::Paused);
                    AppCommand::PausePipeline
                } else {
                    AppCommand::Nothing
                }
            },
            TrayAction::Resume => {
                if self.flags.has_pipeline {
                    self.flags.paused = false;
                    self.tray.update_state(TrayState::Idle);
                    AppCommand::ResumePipeline
                } else {
                    AppCommand::Nothing
                }
            },
            TrayAction::OpenSettings => self.open_window(WindowKind::Settings),
            TrayAction::About => self.open_window(WindowKind::About),
            TrayAction::ViewLog => self.open_window(WindowKind::UploadLog),
            TrayAction::ViewTrash => self.open_window(WindowKind::TrashLog),
            TrayAction::CheckForUpdates => AppCommand::CheckForUpdates,
            TrayAction::OpenUpdateDialog => self.open_update_dialog(),
            TrayAction::RestartToUpdate => {
                if self.flags.update_ready {
                    AppCommand::Restart
                } else {
                    AppCommand::Nothing
                }
            },
            TrayAction::UploadNow => AppCommand::Nothing,
            TrayAction::Quit => AppCommand::Nothing,
        }
    }

    /// Take in all actions of the user that came in since the last time. The
    /// application ends if one of them was to quit, after the others were seen
    /// to.
    pub fn handle_actions(&mut self, actions: &Vec<TrayAction>) -> (r: ActionOutcome)
        ensures
            final(self)@ == after_actions(old(self)@, actions@),
            r.commands@ == commands_of(old(self)@, actions@),
            r.quit == actions@.contains(TrayAction::Quit),
    {
        let ghost m = self@;
        let mut commands: Vec<AppCommand> = Vec::new();
        let mut quit: bool = false;
        let mut i: usize = 0;
        assert(actions@.take(0) =~= Seq::<TrayAction>::empty());
        while i < actions.len()
            invariant
                i <= actions@.len(),
                self@ == after_actions(m, actions@.take(i as int)),
                commands@ =~= commands_of(m, actions@.take(i as int)),
                quit == actions@.take(i as int).contains(TrayAction::Quit),
            decreases actions@.len() - i,
        {
            let ghost before = actions@.take(i as int);
            let ghost after = actions@.take(i + 1);
            let a: TrayAction = actions[i];
            proof {
                assert(after.drop_last() =~= before);
                assert(after.last() == a);
                assert(after.contains(TrayAction::Quit) == (before.contains(TrayAction::Quit) || a
                    is Quit)) by {
                    if before.contains(TrayAction::Quit) {
                        let j = choose|j: int| 0 <= j < before.len() && before[j] is Quit;
                        assert(after[j] is Quit);
                    }
                    if a is Quit {
                        assert(after[i as int] is Quit);
                    }
                    if after.contains(TrayAction::Quit) {
                        let j = choose|j: int| 0 <= j < after.len() && after[j] is Quit;
                        if j < i {
                            assert(before[j] is Quit);
                        }
                    }
                }
            }
            match a {
                TrayAction::Quit => {
                    quit = true;
                },
                _ => {
                    let c: AppCommand = self.handle_tray_action(a);
                    commands.push(c);
                },
            }
            i += 1;
        }
        assert(actions@.take(actions@.len() as int) =~= actions@);
        ActionOutcome { commands, quit }
    }

    /// Whether the tray is to be updated from the queue, with
    /// [`AppState::update_tray_stats`].
    pub fn stats_due(&self, now: u64) -> (r: bool)
        ensures
            r == is_due(now, self@.timers.stats, STATS_INTERVAL_MS),
    {
        due(now, self.timers.stats, STATS_INTERVAL_MS)
    }

    /// Update the tray. `stats` are the counts of the queue, where it could be
    /// read. Returns the notification that uploads are done, once the queue
    /// runs empty.
    pub fn update_tray_stats(&mut self, now: u64, health: EngineHealth, stats: Option<QueueStats>)
        -> (r: Option<Toast>)
        requires
            stats matches Some(s) ==> s.uploading + s.pending <= u64::MAX,
        ensures
            final(self)@ == after_stats(old(self)@, now, health, stats),
            ({
                let n = finished_uploads(old(self)@, now, stats);
                let say = old(self)@.notifications;
                if n > 0 && say.enabled && say.notify_on_complete {
                    notifications::is_toast(
                        r,
                        "Upload Complete"@,
                        notifications::uploaded_text(n),
                    )
                } else {
                    r is None
                }
            }),
    {
        if !due(now, self.timers.stats, STATS_INTERVAL_MS) {
            return None;
        }
        self.timers.stats = now;
        if self.flags.paused || !self.flags.has_pipeline {
            return None;
        }
        let s: QueueStats = match stats {
            Some(s) => s,
            None => {
                return None;
            },
        };
        let active: u64 = s.uploading + s.pending;
        let syncing: bool = active > 0;
        let uploading: u64 = s.uploading;
        let completed: u64 = s.completed;
        assert(uploading as u32 == uploading % 0x1_0000_0000) by (bit_vector);
        assert(active as u32 == active % 0x1_0000_0000) by (bit_vector);
        assert(completed as u32 == completed % 0x1_0000_0000) by (bit_vector);
        #[verifier::truncate]
        let current: u32 = uploading as u32;
        #[verifier::truncate]
        let total: u32 = active as u32;
        let state: TrayState = match health {
            EngineHealth::Failed => TrayState::Error("one or more watchers are offline".to_owned()),
            EngineHealth::Degraded => {
                if syncing {
                    TrayState::Syncing { current, total }
                } else {
                    TrayState::Error("watcher degraded — auto-restart in progress".to_owned())
                }
            },
            EngineHealth::Healthy => {
                if syncing {
                    TrayState::Syncing { current, total }
                } else if self.flags.server_offline {
                    TrayState::Offline
                } else {
                    TrayState::Idle
                }
            },
        };
        self.tray.update_state(state);
        let ended: bool = self.flags.was_syncing && !syncing;
        self.flags.was_syncing = syncing;
        if ended {
            #[verifier::truncate]
            let n: u32 = completed as u32;
            self.notifications.notify_upload_complete(n)
        } else {
            None
        }
    }

    /// Take in the answer to a ping.
    pub fn poll_ping_result(&mut self, reachable: bool)
        ensures
            final(self)@ == after_ping(old(self)@, reachable),
    {
        self.flags.ping_in_flight = false;
        self.flags.server_offline = !reachable;
        let url: String = url_display(&self.config.server.url);
        if !url.as_str().is_empty() {
            self.tray.set_server_status(&url, reachable);
        }
    }

    /// Whether it is time to ping the server; the ping is then under way.
    pub fn maybe_schedule_ping(&mut self, now: u64) -> (r: bool)
        ensures
            r == ping_due(old(self)@, now),
            final(self)@ == (if r {
                AppModel {
                    flags: AppFlags { ping_in_flight: true, ..old(self)@.flags },
                    timers: AppTimers { ping: now, ..old(self)@.timers },
                    ..old(self)@
                }
            } else {
                old(self)@
            }),
    {
        if !self.ping_is_due(now) {
            return false;
        }
        self.timers.ping = now;
        self.flags.ping_in_flight = true;
        true
    }

    fn ping_is_due(&self, now: u64) -> (r: bool)
        ensures
            r == ping_due(self@, now),
    {
        !self.flags.ping_in_flight && due(now, self.timers.ping, PING_INTERVAL_MS)
            && self.flags.has_client
    }

    fn update_check_is_due(&self, now: u64) -> (r: bool)
        ensures
            r == update_check_due(self@, now),
    {
        let interval: u64 = check_interval_from_hours(
            self.config.advanced.update_check_interval_hours,
        ).as_secs();
        self.config.advanced.check_for_updates && now >= self.timers.update_check && (now
            - self.timers.update_check) as u128 >= interval as u128 * 1000
    }

    /// What is due.
    pub fn tick(&mut self, now: u64) -> (r: TickPlan)
        ensures
            final(self)@ == after_tick(old(self)@, now),
            r.update_check is Some == update_check_due(old(self)@, now),
            r.update_check matches Some(p) ==> p.repo@ == old(self)@.config.advanced.update_repo@
                && p.delay_secs == 0,
            r.ping == ping_due(old(self)@, now),
            r.reconcile == is_due(
                now,
                old(self)@.timers.folder_reconcile,
                FOLDER_RECONCILE_INTERVAL_MS,
            ),
            r.prune_logs == is_due(now, old(self)@.timers.log_prune, LOG_PRUNE_INTERVAL_MS),
            r.clean_trash == is_due(
                now,
                old(self)@.timers.trash_cleanup,
                TRASH_CLEANUP_INTERVAL_MS,
            ),
    {
        let ghost m = self@;
        let t: AppTimers = self.timers;
        let check: bool = self.update_check_is_due(now);
        let ping: bool = self.ping_is_due(now);
        let reconcile: bool = due(now, t.folder_reconcile, FOLDER_RECONCILE_INTERVAL_MS);
        let prune_logs: bool = due(now, t.log_prune, LOG_PRUNE_INTERVAL_MS);
        let clean_trash: bool = due(now, t.trash_cleanup, TRASH_CLEANUP_INTERVAL_MS);
        self.timers = AppTimers {
            stats: t.stats,
            trash_cleanup: if clean_trash {
                now
            } else {
                t.trash_cleanup
            },
            log_prune: if prune_logs {
                now
            } else {
                t.log_prune
            },
            folder_reconcile: if reconcile {
                now
            } else {
                t.folder_reconcile
            },
            update_check: t.update_check,
            ping: if ping {
                now
            } else {
                t.ping
            },
        };
        self.flags.ping_in_flight = self.flags.ping_in_flight || ping;
        let update_check: Option<UpdateCheckPlan> = if check {
            Some(self.schedule_update_check(now, false))
        } else {
            None
        };
        proof {
            let after = after_tick(m, now);
            assert(self@.timers == after.timers);
            assert(self@.flags == after.flags);
            assert(self@ =~= after);
        }
        TickPlan { update_check, ping, reconcile, prune_logs, clean_trash }
    }

    /// Take in another configuration. Returns whether a client for the server is
    /// to be made; what came of it goes to [`AppState::client_recreated`]. The
    /// watchers are started anew in any case.
    pub fn apply_new_config(&mut self, new_config: Config) -> (r: bool)
        ensures
            r == needs_client(old(self)@.config, new_config),
            final(self)@ == (AppModel {
                config: new_config,
                notifications: Notifications {
                    enabled: new_config.ui.show_notifications,
                    notify_on_complete: new_config.ui.notification_on_complete,
                },
                ..old(self)@
            }),
    {
        let changed: bool = !str_eq(&new_config.server.url, &self.config.server.url) || !str_eq(
            &new_config.server.api_key,
            &self.config.server.api_key,
        );
        let configured: bool = !new_config.server.url.as_str().is_empty()
            && !new_config.server.api_key.as_str().is_empty();
        self.notifications = Notifications::new(&new_config);
        self.config = new_config;
        changed && configured
    }

    /// Note what came of making a client for the server.
    pub fn client_recreated(&mut self, made: bool)
        ensures
            ({
                let m = AppModel {
                    flags: AppFlags { has_client: made, ..old(self)@.flags },
                    ..old(self)@
                };
                final(self)@ == (if made {
                    showing_server(m, true)
                } else {
                    m
                })
            }),
    {
        self.flags.has_client = made;
        if made {
            let url: String = url_display(&self.config.server.url);
            self.tray.set_server_status(&url, true);
        }
    }

    /// Take in the result of a check for updates. An update that was found is
    /// downloaded at once.
    pub fn poll_update_check(&mut self, result: UpdateCheckResult) -> (r: UpdateReaction)
        ensures
            match result {
                UpdateCheckResult::Available(info) => {
                    &&& final(self)@ == (AppModel { pending_update: Some(info), ..old(self)@ })
                    &&& r.download == Some(info)
                    &&& if old(self)@.notifications.enabled {
                        notifications::is_toast(
                            r.toast,
                            "Downloading Update"@,
                            "Downloading ImmichSync v"@ + info.new_version@ + "..."@,
                        )
                    } else {
                        r.toast is None
                    }
                },
                _ => final(self)@ == old(self)@ && r.download is None && r.toast is None,
            },
    {
        match result {
            UpdateCheckResult::Available(info) => {
                let toast: Option<Toast> = self.notifications.show_toast_raw(
                    "Downloading Update",
                    &concat3("Downloading ImmichSync v", &info.new_version, "..."),
                );
                self.pending_update = Some(info.clone());
                UpdateReaction { toast, download: Some(info) }
            },
            _ => UpdateReaction { toast: None, download: None },
        }
    }

    /// Take in the end of a download: the version that is ready, or why there is
    /// none. An update that could not be downloaded is offered to the user
    /// instead.
    pub fn poll_update_download(&mut self, result: Result<String, String>) -> (r: Option<Toast>)
        ensures
            final(self)@ == after_download(old(self)@, result),
            if !old(self)@.notifications.enabled {
                r is None
            } else {
                match result {
                    Ok(version) => notifications::is_toast(
                        r,
                        "Update Ready"@,
                        "ImmichSync v"@ + version@ + " is ready — restart to apply."@,
                    ),
                    Err(e) => notifications::is_toast(
                        r,
                        "ImmichSync Error"@,
                        "Update download failed: "@ + e@,
                    ),
                }
            },
    {
        match result {
            Ok(version) => {
                self.flags.update_ready = true;
                self.tray.set_restart_to_update(Some(&version));
                self.notifications.show_toast_raw(
                    "Update Ready",
                    &concat3("ImmichSync v", &version, " is ready — restart to apply."),
                )
            },
            Err(e) => {
                match &self.pending_update {
                    Some(info) => {
                        let version: String = info.new_version.clone();
                        self.tray.set_update_available(Some(&version));
                    },
                    None => {},
                }
                self.notifications.notify_error(&concat2("Update download failed: ", &e))
            },
        }
    }
}

// ── Laws ────────────────────────────────────────────────────────────────────

/// A window that is open is not shown again, and one that was closed can be.
pub proof fn law_window_is_shown_once(m: AppModel, a: TrayAction)
    requires
        window_of(a) is Some,
    ensures
        ({
            let kind = window_of(a)->0;
            let after = after_action(m, a);
            &&& after.windows.shows(kind)
            &&& command_of(after, a) is Nothing
            &&& command_of(AppModel { windows: after.windows.with(kind, false), ..after }, a)
                == AppCommand::OpenWindow(kind)
        }),
{
}

/// Pausing and resuming takes the application back to where it was, with an
/// idle tray; while it is paused, the counts of the queue do not change the
/// tray.
pub proof fn law_pause_then_resume(
    m: AppModel,
    now: u64,
    health: EngineHealth,
    stats: Option<QueueStats>,
)
    requires
        m.flags.has_pipeline,
        !m.flags.paused,
    ensures
        ({
            let paused = after_action(m, TrayAction::Pause);
            &&& paused.flags.paused
            &&& after_stats(paused, now, health, stats).tray == paused.tray
            &&& after_action(paused, TrayAction::Resume) == showing(m, TrayStatus::Idle)
        }),
{
}

/// One ping is under way at a time: none is sent before the last was answered.
pub proof fn law_one_ping_at_a_time(m: AppModel, now: u64, later: u64)
    requires
        ping_due(m, now),
    ensures
        !ping_due(after_tick(m, now), later),
{
}

/// Periodic work that was done is due again once its own interval has passed, and
/// not before.
pub proof fn law_periodic_work_waits(m: AppModel, now: u64, later: u64)
    requires
        now <= later,
    ensures
        ({
            let t = after_tick(m, now).timers;
            &&& is_due(now, m.timers.folder_reconcile, FOLDER_RECONCILE_INTERVAL_MS) ==> (is_due(
                later,
                t.folder_reconcile,
                FOLDER_RECONCILE_INTERVAL_MS,
            ) <==> later - now >= FOLDER_RECONCILE_INTERVAL_MS)
            &&& is_due(now, m.timers.log_prune, LOG_PRUNE_INTERVAL_MS) ==> (is_due(
                later,
                t.log_prune,
                LOG_PRUNE_INTERVAL_MS,
            ) <==> later - now >= LOG_PRUNE_INTERVAL_MS)
            &&& is_due(now, m.timers.trash_cleanup, TRASH_CLEANUP_INTERVAL_MS) ==> (is_due(
                later,
                t.trash_cleanup,
                TRASH_CLEANUP_INTERVAL_MS,
            ) <==> later - now >= TRASH_CLEANUP_INTERVAL_MS)
        }),
{
}

/// The logs are pruned and the trash is cleaned at the start, and then an hour
/// later for the first time.
pub proof fn law_first_hour_follows_the_start(m: AppModel, now: u64, later: u64)
    requires
        now <= later,
    ensures
        ({
            let t = after_init(m, now).timers;
            &&& is_due(later, t.log_prune, LOG_PRUNE_INTERVAL_MS) <==> later - now
                >= LOG_PRUNE_INTERVAL_MS
            &&& is_due(later, t.trash_cleanup, TRASH_CLEANUP_INTERVAL_MS) <==> later - now
                >= TRASH_CLEANUP_INTERVAL_MS
        }),
{
}

/// A restart into an update is offered only once the update is in place.
pub proof fn law_restart_needs_a_ready_update(m: AppModel, a: TrayAction)
    requires
        !m.flags.update_ready,
    ensures
        !(command_of(m, a) is Restart),
{
}

/// Uploads under way show that the server can be reached: the tray never says
/// that it is offline while there is something to upload.
pub proof fn law_uploads_hide_the_offline_state(health: EngineHealth, s: QueueStats, offline: bool)
    requires
        is_syncing(s),
    ensures
        !(tray_status(health, s, offline) is Offline),
{
}

/// What was noted of a window is what is known of it, and what is known of the
/// others stays.
pub proof fn law_windows_are_tracked_apart(
    w: WindowOpenTracker,
    kind: WindowKind,
    other: WindowKind,
    shown: bool,
)
    ensures
        w.with(kind, shown).shows(kind) == shown,
        other != kind ==> w.with(kind, shown).shows(other) == w.shows(other),
{
}

/// An item of the menu does what it says: the items for windows show them unless
/// they are shown, pausing and resuming need a pipeline, the update dialog needs
/// an update that is not offered yet, and a restart one that is ready.
pub proof fn law_menu_items_do_what_they_say(m: AppModel, info: UpdateInfo)
    ensures
        !m.windows.settings ==> command_of(m, TrayAction::OpenSettings) == AppCommand::OpenWindow(
            WindowKind::Settings,
        ),
        !m.windows.about ==> command_of(m, TrayAction::About) == AppCommand::OpenWindow(
            WindowKind::About,
        ),
        !m.windows.upload_log ==> command_of(m, TrayAction::ViewLog) == AppCommand::OpenWindow(
            WindowKind::UploadLog,
        ),
        !m.windows.trash_log ==> command_of(m, TrayAction::ViewTrash) == AppCommand::OpenWindow(
            WindowKind::TrashLog,
        ),
        m.flags.has_pipeline ==> command_of(m, TrayAction::Pause) is PausePipeline && command_of(
            m,
            TrayAction::Resume,
        ) is ResumePipeline,
        !m.flags.has_pipeline ==> command_of(m, TrayAction::Pause) is Nothing && command_of(
            m,
            TrayAction::Resume,
        ) is Nothing,
        command_of(m, TrayAction::CheckForUpdates) is CheckForUpdates,
        m.pending_update == Some(info) && !m.windows.update ==> command_of(
            m,
            TrayAction::OpenUpdateDialog,
        ) == AppCommand::ShowUpdate(info),
        m.pending_update is None || m.windows.update ==> command_of(
            m,
            TrayAction::OpenUpdateDialog,
        ) is Nothing,
        m.flags.update_ready ==> command_of(m, TrayAction::RestartToUpdate) is Restart,
        command_of(m, TrayAction::UploadNow) is Nothing,
        command_of(m, TrayAction::Quit) is Nothing,
{
}

/// An item of the menu changes no more than it says: pausing and resuming what is
/// shown and noted of pausing, a window that is shown what is noted of it.
pub proof fn law_menu_items_change_no_more(m: AppModel, a: TrayAction, kind: WindowKind)
    ensures
        ({
            let n = after_action(m, a);
            &&& n.config == m.config && n.timers == m.timers
            &&& n.notifications == m.notifications && n.pending_update == m.pending_update
            &&& n.tray.server_status == m.tray.server_status
            &&& n.tray.update_version == m.tray.update_version
            &&& n.tray.restart_version == m.tray.restart_version
            &&& n.flags == (AppFlags { paused: n.flags.paused, ..m.flags })
            &&& n.flags.paused != m.flags.paused ==> a is Pause || a is Resume
            &&& n.tray.state != m.tray.state ==> a is Pause || a is Resume
            &&& m.flags.has_pipeline && a is Pause ==> n.flags.paused && n.tray.state is Paused
            &&& m.flags.has_pipeline && a is Resume ==> !n.flags.paused && n.tray.state is Idle
            &&& n.windows.shows(kind) != m.windows.shows(kind) ==> n.windows.shows(kind) && (
            window_of(a) == Some(kind) || (a is OpenUpdateDialog && kind is Update))
            &&& command_of(m, a) is ShowUpdate ==> n.windows.update
        }),
{
}

/// Actions are taken one after the other: each but quitting gives one command, for
/// the state that those before it led to.
pub proof fn law_actions_are_taken_in_order(m: AppModel, v: Seq<TrayAction>, a: TrayAction)
    ensures
        commands_of(m, Seq::empty()).len() == 0,
        after_actions(m, Seq::empty()) == m,
        after_actions(m, v.push(a)) == after_action(after_actions(m, v), a),
        commands_of(m, v.push(a)) == if a is Quit {
            commands_of(m, v)
        } else {
            commands_of(m, v).push(command_of(after_actions(m, v), a))
        },
{
    assert(v.push(a).drop_last() =~= v);
}

/// The address that is shown is the end of the server's, without the scheme that
/// stands before it.
pub proof fn law_shown_address_has_no_scheme(url: Seq<char>)
    ensures
        !"http://"@.is_prefix_of(display_url(url)),
        display_url(url).len() <= url.len(),
        display_url(url) == url.skip(url.len() - display_url(url).len()),
        !"http://"@.is_prefix_of(url) && !"https://"@.is_prefix_of(url) ==> display_url(url) == url,
        display_url("https://"@ + url) == display_url(url),
{
    reveal_strlit("http://");
    reveal_strlit("https://");
    let mid = text::without_prefixes(url, "https://"@);
    text::law_prefixes_are_removed(url, "https://"@);
    text::law_prefixes_are_removed(mid, "http://"@);
    let n = display_url(url).len();
    assert(mid.skip(mid.len() - n) =~= url.skip(url.len() - n));
}

/// Work is due once its interval has passed, and not before.
pub proof fn law_work_is_due_after_its_interval(last: u64, interval: u64, now: u64)
    ensures
        is_due(now, last, interval) <==> now >= last + interval,
{
}

/// The tray shows a failed watcher before all else, then uploads, with how many
/// run and how many there are in all, then a watcher that is being restarted,
/// then that the server is away; and is idle only without any of these.
pub proof fn law_tray_shows_what_matters_most(
    health: EngineHealth,
    s: QueueStats,
    offline: bool,
)
    requires
        s.uploading + s.pending <= u32::MAX,
    ensures
        ({
            let t = tray_status(health, s, offline);
            let busy = s.uploading > 0 || s.pending > 0;
            &&& health is Failed ==> t is Error
            &&& !(health is Failed) && busy ==> t == TrayStatus::Syncing {
                current: s.uploading as u32,
                total: (s.uploading + s.pending) as u32,
            }
            &&& health is Degraded && !busy ==> t is Error
            &&& health is Healthy && !busy && offline ==> t is Offline
            &&& t is Idle <==> health is Healthy && !busy && !offline
            &&& !(t is Paused)
        }),
{
}

/// A look at the counts changes what the tray shows, and nothing but that and the
/// notes of the look. While uploads are paused, without a pipeline or without
/// counts, and before two seconds have passed, the tray stays as it is.
pub proof fn law_counts_change_only_the_tray(
    m: AppModel,
    now: u64,
    health: EngineHealth,
    stats: Option<QueueStats>,
)
    ensures
        ({
            let n = after_stats(m, now, health, stats);
            let looks = now - m.timers.stats >= 2000;
            let shows = looks && !m.flags.paused && m.flags.has_pipeline && stats is Some;
            &&& n.config == m.config && n.windows == m.windows
            &&& n.notifications == m.notifications && n.pending_update == m.pending_update
            &&& n.timers == (AppTimers { stats: n.timers.stats, ..m.timers })
            &&& n.timers.stats == if looks { now } else { m.timers.stats }
            &&& n.flags == (AppFlags { was_syncing: n.flags.was_syncing, ..m.flags })
            &&& !shows ==> n.tray == m.tray && n.flags == m.flags
            &&& shows ==> n.tray.state == tray_status(health, stats->0, m.flags.server_offline)
            &&& shows ==> n.flags.was_syncing == (stats->0.uploading > 0 || stats->0.pending > 0)
            &&& n.tray.server_status == m.tray.server_status
            &&& n.tray.update_version == m.tray.update_version
            &&& n.tray.restart_version == m.tray.restart_version
        }),
{
}

/// Uploads are announced as finished once nothing is left to upload that was
/// there at the last look: then as many as are completed.
pub proof fn law_finished_uploads_are_announced(m: AppModel, now: u64, s: QueueStats)
    requires
        s.completed <= u32::MAX,
    ensures
        ({
            let n = finished_uploads(m, now, Some(s));
            let shows = now - m.timers.stats >= 2000 && !m.flags.paused && m.flags.has_pipeline;
            &&& shows && m.flags.was_syncing && s.uploading == 0 && s.pending == 0 ==> n
                == s.completed
            &&& !shows || !m.flags.was_syncing || s.uploading > 0 || s.pending > 0 ==> n == 0
        }),
        finished_uploads(m, now, None) == 0,
{
}

/// Updates are looked for every so many hours, where that is wanted; never where
/// it is not, and not again where the hours are zero.
pub proof fn law_updates_are_looked_for_by_the_hour(m: AppModel, now: u64)
    ensures
        ({
            let hours = m.config.advanced.update_check_interval_hours;
            &&& !m.config.advanced.check_for_updates ==> !update_check_due(m, now)
            &&& hours == 0 ==> !update_check_due(m, now)
            &&& m.config.advanced.check_for_updates && hours > 0 ==> (update_check_due(m, now)
                <==> now - m.timers.update_check >= 3600000 * hours)
        }),
{
}

/// The server is asked every half minute, while there is a client and no answer
/// is waited for.
pub proof fn law_server_is_asked_every_half_minute(m: AppModel, now: u64)
    ensures
        ping_due(m, now) <==> now - m.timers.ping >= 30000 && m.flags.has_client
            && !m.flags.ping_in_flight,
{
}

/// A tick notes the time of the work that is due, and that the server is asked,
/// and changes nothing else.
pub proof fn law_tick_notes_what_is_done(m: AppModel, now: u64)
    ensures
        ({
            let n = after_tick(m, now);
            &&& n.config == m.config && n.windows == m.windows && n.tray == m.tray
            &&& n.notifications == m.notifications && n.pending_update == m.pending_update
            &&& n.timers.stats == m.timers.stats
            &&& n.flags == (AppFlags { ping_in_flight: n.flags.ping_in_flight, ..m.flags })
            &&& n.flags.ping_in_flight == (m.flags.ping_in_flight || ping_due(m, now))
            &&& n.timers.ping == if ping_due(m, now) { now } else { m.timers.ping }
            &&& n.timers.update_check == if update_check_due(m, now) {
                now
            } else {
                m.timers.update_check
            }
            &&& n.timers.folder_reconcile == if now - m.timers.folder_reconcile >= 2000 {
                now
            } else {
                m.timers.folder_reconcile
            }
            &&& n.timers.log_prune == if now - m.timers.log_prune >= 3600000 {
                now
            } else {
                m.timers.log_prune
            }
            &&& n.timers.trash_cleanup == if now - m.timers.trash_cleanup >= 3600000 {
                now
            } else {
                m.timers.trash_cleanup
            }
        }),
{
}

/// The answer of the server decides whether it counts as away, and what its line
/// in the menu says; the next question may follow.
pub proof fn law_answer_decides_whether_the_server_is_away(m: AppModel, reachable: bool)
    ensures
        ({
            let n = after_ping(m, reachable);
            let shown = display_url(m.config.server.url@);
            &&& n.flags == (AppFlags {
                ping_in_flight: false,
                server_offline: !reachable,
                ..m.flags
            })
            &&& n.config == m.config && n.timers == m.timers && n.windows == m.windows
            &&& n.notifications == m.notifications && n.pending_update == m.pending_update
            &&& n.tray.state == m.tray.state
            &&& n.tray.update_version == m.tray.update_version
            &&& n.tray.restart_version == m.tray.restart_version
            &&& shown.len() == 0 ==> n.tray == m.tray
            &&& shown.len() > 0 && reachable ==> n.tray.server_status == "Server: "@ + shown
                + " [connected]"@
            &&& shown.len() > 0 && !reachable ==> n.tray.server_status == "Server: "@ + shown
                + " [offline]"@
        }),
{
}

/// A new client is made where the address or the key has changed, and both are
/// given.
pub proof fn law_client_is_made_for_a_changed_server(a: Config, b: Config)
    ensures
        needs_client(a, b) <==> (a.server.url@ != b.server.url@ || a.server.api_key@
            != b.server.api_key@) && b.server.url@.len() > 0 && b.server.api_key@.len() > 0,
{
}

/// An update that was downloaded is ready, and offered as a restart in place of a
/// download; where it could not be downloaded, the download is offered again.
pub proof fn law_downloaded_update_is_ready(m: AppModel, version: String, e: String)
    ensures
        ({
            let n = after_download(m, Ok(version));
            let f = after_download(m, Err(e));
            &&& n.flags == (AppFlags { update_ready: true, ..m.flags })
            &&& n.tray.restart_version == Some(version@) && n.tray.update_version is None
            &&& n.tray.state == m.tray.state && n.tray.server_status == m.tray.server_status
            &&& n.config == m.config && n.timers == m.timers && n.windows == m.windows
            &&& n.pending_update == m.pending_update
            &&& f.flags == m.flags && f.tray.restart_version == m.tray.restart_version
            &&& m.pending_update matches Some(info) ==> f.tray.update_version == Some(
                info.new_version@,
            )
            &&& m.pending_update is None ==> f == m
            &&& f.config == m.config && f.timers == m.timers && f.windows == m.windows
        }),
{
}

/// With a client the pipeline runs from the start and the server counts as
/// connected; without one the tray says that no server is configured.
pub proof fn law_start_follows_the_client(m: AppModel, now: u64)
    ensures
        ({
            let n = after_init(m, now);
            &&& m.flags.has_client ==> n.flags == (AppFlags { has_pipeline: true, ..m.flags })
            &&& m.flags.has_client ==> n.tray.server_status == "Server: "@ + display_url(
                m.config.server.url@,
            ) + " [connected]"@ && n.tray.state == m.tray.state
            &&& !m.flags.has_client ==> n.flags == m.flags && n.tray.state == TrayStatus::Error(
                "Server not configured"@,
            ) && n.tray.server_status == m.tray.server_status
            &&& n.config == m.config && n.windows == m.windows
            &&& n.notifications == m.notifications && n.pending_update == m.pending_update
            &&& n.timers.log_prune == now && n.timers.trash_cleanup == now
            &&& n.timers.update_check == if m.config.advanced.check_for_updates {
                now
            } else {
                m.timers.update_check
            }
            &&& n.timers.stats == m.timers.stats && n.timers.ping == m.timers.ping
            &&& n.timers.folder_reconcile == m.timers.folder_reconcile
        }),
{
}

} // verus!
