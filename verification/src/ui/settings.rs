//! The settings window: what it shows, and what saving it changes.
//!
//! [`SettingsApp`] is the model. Whoever shows the window binds its fields to
//! controls and calls its methods.

use vstd::prelude::*;

use crate::api::client;
use crate::api::client::ImmichClient;
use crate::clock;
use crate::clock::now_text;
use crate::config::{AdvancedConfig, Config, ServerConfig, UiConfig, UploadConfig};
use crate::db;
use crate::db::{AlbumMode, Database, DbError, FolderSettings, PostUpload, WatchedFolder};
use crate::text;
use crate::text::{concat2, drop_prefix, str_eq};

verus! {

broadcast use vstd::seq::group_seq_axioms;

/// The settings window.
pub struct SettingsApp {
    pub server_url: String,
    pub api_key: String,
    pub device_name: String,
    /// What the last test of the connection said.
    pub test_status: String,
    pub concurrency: u32,
    pub upload_order: String,
    pub max_retries: u32,
    pub bandwidth_limit: u64,
    pub poll_interval: u64,
    pub log_level: String,
    pub autostart: bool,
    pub minimize_to_tray: bool,
    pub show_notifications: bool,
    pub notify_on_complete: bool,
    pub write_settle_ms: u64,
    pub check_for_updates: bool,
    pub update_check_interval_hours: u32,
    pub update_repo: String,
    /// The watched folders, as they are edited.
    pub folders: Vec<WatchedFolder>,
    /// The ids of the folders whose uploaded files are trashed or deleted when
    /// the window is saved.
    pub apply_existing: Vec<i64>,
    /// The configuration that was opened.
    pub config: Config,
}

/// Whether a window shows a configuration.
pub open spec fn shows(w: SettingsApp, c: Config) -> bool {
    &&& w.server_url == c.server.url
    &&& w.api_key == c.server.api_key
    &&& w.device_name == c.server.device_id
    &&& w.concurrency == c.upload.concurrency
    &&& w.upload_order == c.upload.order
    &&& w.max_retries == c.upload.max_retries
    &&& w.bandwidth_limit == c.upload.bandwidth_limit_kbps
    &&& w.poll_interval == c.advanced.poll_interval_secs
    &&& w.log_level == c.advanced.log_level
    &&& w.autostart == c.ui.start_with_windows
    &&& w.minimize_to_tray == c.ui.minimize_to_tray
    &&& w.show_notifications == c.ui.show_notifications
    &&& w.notify_on_complete == c.ui.notification_on_complete
    &&& w.write_settle_ms == c.advanced.write_settle_ms
    &&& w.check_for_updates == c.advanced.check_for_updates
    &&& w.update_check_interval_hours == c.advanced.update_check_interval_hours
    &&& w.update_repo == c.advanced.update_repo
    &&& w.config == c
}

/// The configuration that a window is saved as. What the window does not show
/// stays.
pub open spec fn edited(w: SettingsApp) -> Config {
    Config {
        server: ServerConfig { url: w.server_url, api_key: w.api_key, device_id: w.device_name },
        upload: UploadConfig {
            concurrency: w.concurrency,
            order: w.upload_order,
            max_retries: w.max_retries,
            bandwidth_limit_kbps: w.bandwidth_limit,
            ..w.config.upload
        },
        devices: w.config.devices,
        ui: UiConfig {
            start_with_windows: w.autostart,
            minimize_to_tray: w.minimize_to_tray,
            show_notifications: w.show_notifications,
            notification_on_complete: w.notify_on_complete,
            ..w.config.ui
        },
        advanced: AdvancedConfig {
            poll_interval_secs: w.poll_interval,
            log_level: w.log_level,
            write_settle_ms: w.write_settle_ms,
            check_for_updates: w.check_for_updates,
            update_check_interval_hours: w.update_check_interval_hours,
            update_repo: w.update_repo,
        },
    }
}

/// A number that was entered, but at least `least`.
pub fn at_least(entered: i32, least: u32) -> (r: u32)
    ensures
        r == (if entered < least {
            least as int
        } else {
            entered as int
        }),
{
    if entered < 0 || (entered as u32) < least {
        least
    } else {
        entered as u32
    }
}

/// The least polling interval, in seconds.
pub const LEAST_POLL_INTERVAL: u32 = 5;

/// The least time for which a file must be left alone, in milliseconds.
pub const LEAST_WRITE_SETTLE: u32 = 500;

/// The least time between two checks for updates, in hours.
pub const LEAST_UPDATE_INTERVAL: u32 = 1;

// ── Folders ─────────────────────────────────────────────────────────────────

/// A choice: what is stored for it, and what is shown.
#[derive(Debug, Clone, Copy)]
pub struct Choice {
    pub code: &'static str,
    pub label: &'static str,
}

/// What the choice of an album says.
pub open spec fn album_label(m: AlbumMode) -> Seq<char> {
    match m {
        AlbumMode::NoAlbum => "None"@,
        AlbumMode::Folder => "Folder Name"@,
        AlbumMode::Subfolder => "Subfolder Name"@,
        AlbumMode::Date => "Date (YYYY-MM)"@,
        AlbumMode::Fixed => "Fixed Album"@,
    }
}

/// The choice of an album.
pub fn album_choice(mode: AlbumMode) -> (r: Choice)
    ensures
        r.code@ == mode.code(),
        r.label@ == album_label(mode),
{
    Choice {
        code: mode.as_str(),
        label: match mode {
            AlbumMode::NoAlbum => "None",
            AlbumMode::Folder => "Folder Name",
            AlbumMode::Subfolder => "Subfolder Name",
            AlbumMode::Date => "Date (YYYY-MM)",
            AlbumMode::Fixed => "Fixed Album",
        },
    }
}

/// What the choice of what happens to uploaded files says.
pub open spec fn post_label(p: PostUpload) -> Seq<char> {
    match p {
        PostUpload::Keep => "Keep"@,
        PostUpload::Trash => "Move to Trash"@,
        PostUpload::Delete => "Delete"@,
    }
}

/// The choice of what happens to uploaded files.
pub fn post_choice(post: PostUpload) -> (r: Choice)
    ensures
        r.code@ == post.code(),
        r.label@ == post_label(post),
{
    Choice {
        code: post.as_str(),
        label: match post {
            PostUpload::Keep => "Keep",
            PostUpload::Trash => "Move to Trash",
            PostUpload::Delete => "Delete",
        },
    }
}

/// The offer to treat files that were uploaded before, where there is one.
pub open spec fn existing_offer(p: PostUpload) -> Option<Seq<char>> {
    match p {
        PostUpload::Keep => None,
        PostUpload::Trash => Some("Also trash already-uploaded files"@),
        PostUpload::Delete => Some("Also delete already-uploaded files"@),
    }
}

/// The offer to treat files that were uploaded before, where there is one.
pub fn existing_label(post: PostUpload) -> (r: Option<&'static str>)
    ensures
        r.deep_view() == existing_offer(post),
{
    match post {
        PostUpload::Keep => None,
        PostUpload::Trash => Some("Also trash already-uploaded files"),
        PostUpload::Delete => Some("Also delete already-uploaded files"),
    }
}

/// What the window shows of a watched folder.
#[derive(Debug)]
pub struct FolderCard {
    pub id: i64,
    pub enabled: bool,
    pub path: String,
    pub album: Choice,
    /// The name of the album, where it can be entered.
    pub album_name: Option<String>,
    pub post_upload: Choice,
    /// The offer to treat files that were uploaded before, and whether it is
    /// taken.
    pub existing: Option<(&'static str, bool)>,
}

/// Whether `c` shows a watched folder. `checked` is whether files that were
/// uploaded before are treated too.
pub open spec fn is_card_of(c: FolderCard, f: WatchedFolder, checked: bool) -> bool {
    &&& c.id == f.id
    &&& c.enabled == f.enabled
    &&& c.path == f.path
    &&& c.album.code@ == f.album_mode.code()
    &&& c.album.label@ == album_label(f.album_mode)
    &&& text::opt_text(c.album_name) == (if f.album_mode is Fixed {
        match text::opt_text(f.album_name) {
            Some(n) => Some(n),
            None => Some(""@),
        }
    } else {
        None
    })
    &&& c.post_upload.code@ == f.post_upload.code()
    &&& c.post_upload.label@ == post_label(f.post_upload)
    &&& match existing_offer(f.post_upload) {
        None => c.existing is None,
        Some(label) => c.existing matches Some(e) && e.0@ == label && e.1 == checked,
    }
}

/// Whether an id is among others.
fn has_id(ids: &Vec<i64>, id: i64) -> (r: bool)
    ensures
        r == ids@.contains(id),
{
    let mut i: usize = 0;
    while i < ids.len()
        invariant
            i <= ids@.len(),
            forall|j: int| 0 <= j < i ==> ids@[j] != id,
        decreases ids@.len() - i,
    {
        if ids[i] == id {
            assert(ids@.contains(id));
            return true;
        }
        i += 1;
    }
    false
}

/// The ids without one of them.
fn without_id(ids: &Vec<i64>, id: i64) -> (r: Vec<i64>)
    ensures
        r@ == ids@.filter(|x: i64| x != id),
{
    let ghost p = |x: i64| x != id;
    let mut r: Vec<i64> = Vec::new();
    let mut i: usize = 0;
    assert(ids@.take(0).filter(p) =~= Seq::<i64>::empty()) by {
        reveal(Seq::filter);
    }
    while i < ids.len()
        invariant
            i <= ids@.len(),
            p == |x: i64| x != id,
            r@ =~= ids@.take(i as int).filter(p),
        decreases ids@.len() - i,
    {
        assert(ids@.take(i + 1).drop_last() =~= ids@.take(i as int));
        reveal(Seq::filter);
        if ids[i] != id {
            r.push(ids[i]);
        }
        i += 1;
    }
    assert(ids@.take(ids@.len() as int) =~= ids@);
    r
}

/// A folder once it was shown: a fixed album has a name, if only an empty one.
pub open spec fn shown_folder(r: db::FolderRow) -> db::FolderRow {
    db::FolderRow {
        album_name: if r.album_mode is Fixed && r.album_name is None {
            Some(""@)
        } else {
            r.album_name
        },
        ..r
    }
}

/// A folder with the settings of another, changed at `now`.
pub open spec fn with_edits(r: db::FolderRow, f: db::FolderRow, now: Seq<char>) -> db::FolderRow {
    db::FolderRow {
        id: r.id,
        path: r.path,
        auto_added: r.auto_added,
        created_at: r.created_at,
        updated_at: now,
        ..f
    }
}

/// The folders of the database after those of the window were saved.
pub open spec fn after_save(
    rows: Seq<db::FolderRow>,
    edits: Seq<db::FolderRow>,
    now: Seq<char>,
) -> Seq<db::FolderRow>
    decreases edits.len(),
{
    if edits.len() == 0 {
        rows
    } else {
        let before = after_save(rows, edits.drop_last(), now);
        let f = edits.last();
        before.map_values(
            |r: db::FolderRow|
                if r.id == f.id {
                    with_edits(r, f, now)
                } else {
                    r
                },
        )
    }
}

fn as_text(o: &Option<String>) -> (r: Option<&str>)
    ensures
        r.deep_view() == text::opt_text(*o),
{
    match o {
        Some(s) => Some(s.as_str()),
        None => None,
    }
}

/// What a test of the connection found.
#[derive(Debug)]
pub enum TestOutcome {
    /// The server answered a ping; whether as an Immich server does.
    Answered(bool),
    /// The server could not be asked.
    Failed(String),
    /// The test could not be run.
    NotRun(String),
}

/// What a test of the connection says.
pub open spec fn test_text(o: TestOutcome) -> Seq<char> {
    match o {
        TestOutcome::Answered(true) => "Connected!"@,
        TestOutcome::Answered(false) => "Server responded but not ready"@,
        TestOutcome::Failed(m) => "Failed: "@ + m@,
        TestOutcome::NotRun(m) => "Runtime error: "@ + m@,
    }
}

/// What a test of the connection says.
pub fn test_status_text(outcome: &TestOutcome) -> (r: String)
    ensures
        r@ == test_text(*outcome),
{
    match outcome {
        TestOutcome::Answered(ready) => {
            if *ready {
                "Connected!".to_owned()
            } else {
                "Server responded but not ready".to_owned()
            }
        },
        TestOutcome::Failed(m) => concat2("Failed: ", m),
        TestOutcome::NotRun(m) => concat2("Runtime error: ", m),
    }
}

/// The connection to test; what to say where there is none.
pub fn test_connection(server_url: &str, api_key: &str) -> (r: Result<ImmichClient, String>)
    ensures
        match r {
            Ok(c) => server_url@.len() > 0 && api_key@.len() > 0 && client::header_text(api_key@)
                && c@.base_url == text::trimmed_end(server_url@, '/') && c@.api_key == api_key@,
            Err(m) => if server_url@.len() == 0 || api_key@.len() == 0 {
                m@ == "Enter URL and API key first"@
            } else {
                !client::header_text(api_key@) && m@ == "Invalid config: "@
                    + "unexpected error: "@
                    + "invalid API key characters: failed to parse header value"@
            },
        },
{
    if server_url.is_empty() || api_key.is_empty() {
        return Err("Enter URL and API key first".to_owned());
    }
    match ImmichClient::new(server_url, api_key) {
        Ok(c) => Ok(c),
        Err(e) => {
            let m: String = concat2("Invalid config: ", &e.message());
            assert(m@ =~= "Invalid config: "@ + "unexpected error: "@
                + "invalid API key characters: failed to parse header value"@);
            Err(m)
        },
    }
}

impl SettingsApp {
    /// The window for a configuration and the watched folders.
    pub fn new(config: Config, folders: Vec<WatchedFolder>) -> (r: SettingsApp)
        ensures
            shows(r, config),
            r.test_status@ == ""@,
            r.folders == folders,
            r.apply_existing@ == Seq::<i64>::empty(),
    {
        SettingsApp {
            server_url: config.server.url.clone(),
            api_key: config.server.api_key.clone(),
            device_name: config.server.device_id.clone(),
            test_status: "".to_owned(),
            concurrency: config.upload.concurrency,
            upload_order: config.upload.order.clone(),
            max_retries: config.upload.max_retries,
            bandwidth_limit: config.upload.bandwidth_limit_kbps,
            poll_interval: config.advanced.poll_interval_secs,
            log_level: config.advanced.log_level.clone(),
            autostart: config.ui.start_with_windows,
            minimize_to_tray: config.ui.minimize_to_tray,
            show_notifications: config.ui.show_notifications,
            notify_on_complete: config.ui.notification_on_complete,
            write_settle_ms: config.advanced.write_settle_ms,
            check_for_updates: config.advanced.check_for_updates,
            update_check_interval_hours: config.advanced.update_check_interval_hours,
            update_repo: config.advanced.update_repo.clone(),
            folders,
            apply_existing: Vec::new(),
            config,
        }
    }

    /// Take what the window shows into its configuration, which is then saved.
    pub fn save_config(&mut self)
        ensures
            final(self).config == edited(*old(self)),
            *final(self) == (SettingsApp { config: final(self).config, ..*old(self) }),
    {
        self.config.server.url = self.server_url.clone();
        self.config.server.api_key = self.api_key.clone();
        self.config.server.device_id = self.device_name.clone();
        self.config.upload.concurrency = self.concurrency;
        self.config.upload.order = self.upload_order.clone();
        self.config.upload.max_retries = self.max_retries;
        self.config.upload.bandwidth_limit_kbps = self.bandwidth_limit;
        self.config.advanced.poll_interval_secs = self.poll_interval;
        self.config.advanced.log_level = self.log_level.clone();
        self.config.advanced.write_settle_ms = self.write_settle_ms;
        self.config.advanced.check_for_updates = self.check_for_updates;
        self.config.advanced.update_check_interval_hours = self.update_check_interval_hours;
        self.config.advanced.update_repo = self.update_repo.clone();
        self.config.ui.start_with_windows = self.autostart;
        self.config.ui.minimize_to_tray = self.minimize_to_tray;
        self.config.ui.show_notifications = self.show_notifications;
        self.config.ui.notification_on_complete = self.notify_on_complete;
    }

    /// What the window shows of the watched folders, in order. A folder with a
    /// fixed album that has no name gets an empty one, which can then be edited
    /// and is saved.
    pub fn show_watch_folders_tab(&mut self) -> (r: Vec<FolderCard>)
        ensures
            final(self).folders@.len() == old(self).folders@.len(),
            forall|i: int|
                0 <= i < old(self).folders@.len() ==> (#[trigger] final(self).folders@[i])@
                    == shown_folder(old(self).folders@[i]@),
            *final(self) == (SettingsApp { folders: final(self).folders, ..*old(self) }),
            r@.len() == old(self).folders@.len(),
            forall|i: int|
                0 <= i < r@.len() ==> is_card_of(
                    #[trigger] r@[i],
                    final(self).folders@[i],
                    old(self).apply_existing@.contains(old(self).folders@[i].id),
                ),
    {
        self.name_fixed_albums();
        self.folder_cards()
    }

    /// Give the fixed albums that have no name an empty one.
    fn name_fixed_albums(&mut self)
        ensures
            final(self).folders@.len() == old(self).folders@.len(),
            forall|i: int|
                0 <= i < old(self).folders@.len() ==> (#[trigger] final(self).folders@[i])@
                    == shown_folder(old(self).folders@[i]@),
            *final(self) == (SettingsApp { folders: final(self).folders, ..*old(self) }),
    {
        let mut i: usize = 0;
        while i < self.folders.len()
            invariant
                i <= self.folders@.len(),
                self.folders@.len() == old(self).folders@.len(),
                forall|j: int|
                    0 <= j < i ==> (#[trigger] self.folders@[j])@ == shown_folder(
                        old(self).folders@[j]@,
                    ),
                forall|j: int|
                    i <= j < self.folders@.len() ==> #[trigger] self.folders@[j]
                        == old(self).folders@[j],
                *self == (SettingsApp { folders: self.folders, ..*old(self) }),
            decreases self.folders@.len() - i,
        {
            let mut f: WatchedFolder = self.folders[i].clone();
            match f.album_mode {
                AlbumMode::Fixed => {
                    if f.album_name.is_none() {
                        f.album_name = Some("".to_owned());
                    }
                },
                _ => {},
            }
            assert(f@ == shown_folder(old(self).folders@[i as int]@));
            self.folders.set(i, f);
            i += 1;
        }
    }

    /// The cards of the watched folders, in order.
    fn folder_cards(&self) -> (r: Vec<FolderCard>)
        ensures
            r@.len() == self.folders@.len(),
            forall|i: int|
                0 <= i < r@.len() ==> is_card_of(
                    #[trigger] r@[i],
                    self.folders@[i],
                    self.apply_existing@.contains(self.folders@[i].id),
                ),
    {
        let mut r: Vec<FolderCard> = Vec::new();
        let mut i: usize = 0;
        while i < self.folders.len()
            invariant
                i <= self.folders@.len(),
                r@.len() == i,
                forall|j: int|
                    0 <= j < i ==> is_card_of(
                        #[trigger] r@[j],
                        self.folders@[j],
                        self.apply_existing@.contains(self.folders@[j].id),
                    ),
            decreases self.folders@.len() - i,
        {
            let f: &WatchedFolder = &self.folders[i];
            let album_name: Option<String> = match f.album_mode {
                AlbumMode::Fixed => Some(
                    match &f.album_name {
                        Some(n) => n.clone(),
                        None => "".to_owned(),
                    },
                ),
                _ => None,
            };
            let checked: bool = has_id(&self.apply_existing, f.id);
            let existing: Option<(&'static str, bool)> = match existing_label(f.post_upload) {
                Some(label) => Some((label, checked)),
                None => None,
            };
            let card: FolderCard = FolderCard {
                id: f.id,
                enabled: f.enabled,
                path: f.path.clone(),
                album: album_choice(f.album_mode),
                album_name,
                post_upload: post_choice(f.post_upload),
                existing,
            };
            assert(is_card_of(card, *f, checked));
            r.push(card);
            i += 1;
        }
        r
    }

    /// Choose the album of a folder. The name of a fixed album can then be
    /// entered.
    pub fn choose_album(&mut self, index: usize, code: &str)
        requires
            index < old(self).folders@.len(),
        ensures
            final(self).folders@.len() == old(self).folders@.len(),
            final(self).folders@[index as int]@ == (db::FolderRow {
                album_mode: AlbumMode::decoded(code@),
                album_name: if AlbumMode::decoded(code@) is Fixed
                    && old(self).folders@[index as int]@.album_name is None {
                    Some(""@)
                } else {
                    old(self).folders@[index as int]@.album_name
                },
                ..old(self).folders@[index as int]@
            }),
            forall|i: int|
                0 <= i < old(self).folders@.len() && i != index ==> #[trigger] final(self).folders@[i]
                    == old(self).folders@[i],
            *final(self) == (SettingsApp { folders: final(self).folders, ..*old(self) }),
    {
        let mut f: WatchedFolder = self.folders[index].clone();
        f.album_mode = AlbumMode::from_str(code);
        match f.album_mode {
            AlbumMode::Fixed => {
                if f.album_name.is_none() {
                    f.album_name = Some("".to_owned());
                }
            },
            _ => {},
        }
        self.folders.set(index, f);
    }

    /// Choose what happens to the uploaded files of a folder. Files that were
    /// uploaded before are not treated where files are kept.
    pub fn choose_post_upload(&mut self, index: usize, code: &str)
        requires
            index < old(self).folders@.len(),
        ensures
            final(self).folders@.len() == old(self).folders@.len(),
            final(self).folders@[index as int]@ == (db::FolderRow {
                post_upload: PostUpload::decoded(code@),
                ..old(self).folders@[index as int]@
            }),
            forall|i: int|
                0 <= i < old(self).folders@.len() && i != index ==> #[trigger] final(self).folders@[i]
                    == old(self).folders@[i],
            final(self).apply_existing@ == (if PostUpload::decoded(code@) is Keep {
                old(self).apply_existing@.filter(|x: i64| x != old(self).folders@[index as int].id)
            } else {
                old(self).apply_existing@
            }),
            *final(self) == (SettingsApp {
                folders: final(self).folders,
                apply_existing: final(self).apply_existing,
                ..*old(self)
            }),
    {
        let mut f: WatchedFolder = self.folders[index].clone();
        let id: i64 = f.id;
        f.post_upload = PostUpload::from_str(code);
        match f.post_upload {
            PostUpload::Keep => {
                self.apply_existing = without_id(&self.apply_existing, id);
            },
            _ => {},
        }
        self.folders.set(index, f);
    }

    /// Say whether files of a folder that were uploaded before are treated too.
    pub fn set_apply_existing(&mut self, id: i64, apply: bool)
        ensures
            final(self).apply_existing@.contains(id) == apply,
            forall|x: i64|
                x != id ==> #[trigger] final(self).apply_existing@.contains(x) == old(
                    self,
                ).apply_existing@.contains(x),
            *final(self) == (SettingsApp { apply_existing: final(self).apply_existing, ..*old(self) }),
    {
        let ghost before = self.apply_existing@;
        let ghost p = |x: i64| x != id;
        let mut ids: Vec<i64> = without_id(&self.apply_existing, id);
        let ghost kept = ids@;
        proof {
            assert forall|x: i64| kept.contains(x) == (before.contains(x) && x != id) by {
                if kept.contains(x) {
                    before.lemma_filter_contains_rev(p, x);
                    let k = choose|k: int| 0 <= k < kept.len() && kept[k] == x;
                    before.lemma_filter_pred(p, k);
                }
                if before.contains(x) && x != id {
                    let k = choose|k: int| 0 <= k < before.len() && before[k] == x;
                    before.lemma_filter_contains(p, k);
                }
            }
        }
        if apply {
            ids.push(id);
            proof {
                assert(ids@[kept.len() as int] == id);
                assert forall|x: i64| #[trigger] ids@.contains(x) == (kept.contains(x) || x == id) by {
                    if kept.contains(x) {
                        let k = choose|k: int| 0 <= k < kept.len() && kept[k] == x;
                        assert(ids@[k] == x);
                    }
                }
            }
        }
        self.apply_existing = ids;
    }

    /// Add a folder to the database and to the window. One that the window
    /// shows is not added again.
    pub fn add_folder(&mut self, db: &mut Database, path: &str) -> (r: Result<(), DbError>)
        requires
            old(db).wf(),
        ensures
            final(db).wf(),
            *final(self) == (SettingsApp { folders: final(self).folders, ..*old(self) }),
            ({
                let shown = exists|i: int|
                    0 <= i < old(self).folders@.len() && (
                    #[trigger] old(self).folders@[i]).path@ == path@;
                if shown {
                    &&& r is Ok
                    &&& final(self).folders@ == old(self).folders@
                    &&& final(db)@ == old(db)@
                } else {
                    &&& exists|now: Seq<char>|
                        clock::names_instant(now) && final(db)@ == #[trigger] db::after_add_folder(
                            old(db)@,
                            path@,
                            None,
                            false,
                            now,
                        )
                    &&& match db::add_folder_result(old(db)@, path@) {
                        Ok(id) => {
                            &&& r is Ok
                            &&& final(self).folders@.len() == old(self).folders@.len() + 1
                            &&& final(self).folders@.drop_last() == old(self).folders@
                            &&& final(self).folders@.last()@.path == path@
                            &&& final(db)@.folders.contains(final(self).folders@.last()@)
                        },
                        Err(e) => {
                            &&& r == Err::<(), DbError>(e)
                            &&& final(self).folders@ == old(self).folders@
                            &&& final(db)@ == old(db)@
                        },
                    }
                }
            }),
    {
        let mut i: usize = 0;
        while i < self.folders.len()
            invariant
                i <= self.folders@.len(),
                *self == *old(self),
                *db == *old(db),
                db.wf(),
                forall|j: int| 0 <= j < i ==> (#[trigger] self.folders@[j]).path@ != path@,
            decreases self.folders@.len() - i,
        {
            if str_eq(&self.folders[i].path, path) {
                return Ok(());
            }
            i += 1;
        }
        let ghost before = db@;
        match db.add_folder(path, None, false) {
            Ok(_) => {
                proof {
                    let now = choose|now: Seq<char>|
                        clock::names_instant(now) && db@ == #[trigger] db::after_add_folder(
                            before,
                            path@,
                            None,
                            false,
                            now,
                        );
                    let n = before.folders.len() as int;
                    assert(db@.folders[n].path == path@);
                    assert(db@.has_path(path@));
                }
                match db.get_folder_by_path(path) {
                    Some(f) => {
                        self.folders.push(f);
                        assert(self.folders@.drop_last() =~= old(self).folders@);
                    },
                    None => {
                        assert(false);
                    },
                }
                Ok(())
            },
            Err(e) => Err(e),
        }
    }

    /// Remove a folder from the database and from the window. Where the database
    /// refuses, it stays in both.
    pub fn remove_folder(&mut self, db: &mut Database, id: i64) -> (r: Result<(), DbError>)
        requires
            old(db).wf(),
        ensures
            final(db).wf(),
            final(db)@ == db::after_remove_folder(old(db)@, id),
            r is Ok == !old(db)@.refers_to_folder(id),
            r matches Err(e) ==> e is ForeignKey && final(self).folders@ == old(self).folders@,
            r is Ok ==> final(self).folders@ == old(self).folders@.filter(
                |f: WatchedFolder| f.id != id,
            ),
            *final(self) == (SettingsApp { folders: final(self).folders, ..*old(self) }),
    {
        match db.remove_folder(id) {
            Ok(_) => {
                self.forget_folder(id);
                Ok(())
            },
            Err(e) => Err(e),
        }
    }

    /// Remove a folder from the window only.
    pub fn forget_folder(&mut self, id: i64)
        ensures
            final(self).folders@ == old(self).folders@.filter(|f: WatchedFolder| f.id != id),
            *final(self) == (SettingsApp { folders: final(self).folders, ..*old(self) }),
    {
        let ghost p = |f: WatchedFolder| f.id != id;
        let mut kept: Vec<WatchedFolder> = Vec::new();
        let mut i: usize = 0;
        assert(self.folders@.take(0).filter(p) =~= Seq::<WatchedFolder>::empty()) by {
            reveal(Seq::filter);
        }
        while i < self.folders.len()
            invariant
                i <= self.folders@.len(),
                *self == *old(self),
                p == |f: WatchedFolder| f.id != id,
                kept@ =~= self.folders@.take(i as int).filter(p),
            decreases self.folders@.len() - i,
        {
            assert(self.folders@.take(i + 1).drop_last() =~= self.folders@.take(i as int));
            reveal(Seq::filter);
            if self.folders[i].id != id {
                kept.push(self.folders[i].clone());
            }
            i += 1;
        }
        assert(self.folders@.take(self.folders@.len() as int) =~= self.folders@);
        self.folders = kept;
    }

    /// Save the watched folders to the database, at time `now`.
    pub fn save_folders_at(&self, db: &mut Database, now: &str)
        requires
            old(db).wf(),
        ensures
            final(db).wf(),
            final(db)@ == (db::Tables {
                folders: after_save(old(db)@.folders, db::folder_rows(self.folders@), now@),
                ..old(db)@
            }),
    {
        let ghost t = db@;
        let ghost rows = db::folder_rows(self.folders@);
        let mut i: usize = 0;
        assert(rows.take(0) =~= Seq::<db::FolderRow>::empty());
        while i < self.folders.len()
            invariant
                i <= self.folders@.len(),
                db.wf(),
                rows == db::folder_rows(self.folders@),
                db@ == (db::Tables {
                    folders: after_save(t.folders, rows.take(i as int), now@),
                    ..t
                }),
            decreases self.folders@.len() - i,
        {
            let f: &WatchedFolder = &self.folders[i];
            let ghost before = db@.folders;
            let s = FolderSettings {
                label: as_text(&f.label),
                enabled: f.enabled,
                watch_mode: f.watch_mode,
                poll_interval_secs: f.poll_interval_secs,
                album_mode: f.album_mode,
                album_name: as_text(&f.album_name),
                include_patterns: as_text(&f.include_patterns),
                exclude_patterns: as_text(&f.exclude_patterns),
                post_upload: f.post_upload,
                ignore_online_files: f.ignore_online_files,
            };
            db.update_folder_at(f.id, &s, now);
            proof {
                assert(rows[i as int] == f@);
                assert(rows.take(i + 1).drop_last() =~= rows.take(i as int));
                assert(rows.take(i + 1).last() == f@);
                assert forall|r: db::FolderRow| #[trigger] db::with_settings(r, s, now@)
                    == with_edits(r, f@, now@) by {
                    assert(db::with_settings(r, s, now@) =~= with_edits(r, f@, now@));
                }
                let a = db::after_update_folder(before, f.id, s, now@);
                let b = after_save(t.folders, rows.take(i + 1), now@);
                assert forall|k: int| 0 <= k < before.len() implies #[trigger] a[k] == b[k] by {
                    assert(db::with_settings(before[k], s, now@) == with_edits(
                        before[k],
                        f@,
                        now@,
                    ));
                }
                assert(a =~= b);
            }
            i += 1;
        }
        assert(rows.take(rows.len() as int) =~= rows);
    }

    /// Save the watched folders to the database.
    pub fn save_folders(&self, db: &mut Database)
        requires
            old(db).wf(),
        ensures
            final(db).wf(),
            exists|now: Seq<char>|
                clock::names_instant(now) && final(db)@ == (db::Tables {
                    folders: #[trigger] after_save(
                        old(db)@.folders,
                        db::folder_rows(self.folders@),
                        now,
                    ),
                    ..old(db)@
                }),
    {
        let now: String = now_text();
        self.save_folders_at(db, &now);
    }

    /// The folders whose uploaded files are treated when the window is saved, in
    /// order.
    pub fn folders_to_apply(&self) -> (r: Vec<WatchedFolder>)
        ensures
            r@ == self.folders@.filter(|f: WatchedFolder| self.apply_existing@.contains(f.id)),
    {
        let ghost p = |f: WatchedFolder| self.apply_existing@.contains(f.id);
        let mut r: Vec<WatchedFolder> = Vec::new();
        let mut i: usize = 0;
        assert(self.folders@.take(0).filter(p) =~= Seq::<WatchedFolder>::empty()) by {
            reveal(Seq::filter);
        }
        while i < self.folders.len()
            invariant
                i <= self.folders@.len(),
                p == |f: WatchedFolder| self.apply_existing@.contains(f.id),
                r@ =~= self.folders@.take(i as int).filter(p),
            decreases self.folders@.len() - i,
        {
            assert(self.folders@.take(i + 1).drop_last() =~= self.folders@.take(i as int));
            reveal(Seq::filter);
            if has_id(&self.apply_existing, self.folders[i].id) {
                r.push(self.folders[i].clone());
            }
            i += 1;
        }
        assert(self.folders@.take(self.folders@.len() as int) =~= self.folders@);
        r
    }
}

// ── Files that were uploaded before ─────────────────────────────────────────

/// What is done with a file that was uploaded before.
#[derive(Debug, Clone, Copy, PartialEq, Eq, Structural)]
pub enum ExistingAction {
    Trash,
    Delete,
}

/// The paths of uploaded files as they are on disk, without the prefix of
/// extended paths.
pub open spec fn plain_paths(paths: Seq<Seq<char>>) -> Seq<Seq<char>> {
    paths.map_values(|p: Seq<char>| text::without_prefix(p, db::EXTENDED_PREFIX@))
}

/// What to do with the files of a folder that were uploaded before: the files to
/// treat, those of them that exist, and how; nothing where files are kept.
pub fn apply_post_upload_to_existing(post_upload: PostUpload, uploaded: &Vec<String>) -> (r: Option<
    (ExistingAction, Vec<String>),
>)
    ensures
        match post_upload {
            PostUpload::Keep => r is None,
            PostUpload::Trash => r matches Some(a) && a.0 is Trash && text::texts(a.1@)
                == plain_paths(text::texts(uploaded@)),
            PostUpload::Delete => r matches Some(a) && a.0 is Delete && text::texts(a.1@)
                == plain_paths(text::texts(uploaded@)),
        },
{
    let action: ExistingAction = match post_upload {
        PostUpload::Keep => {
            return None;
        },
        PostUpload::Trash => ExistingAction::Trash,
        PostUpload::Delete => ExistingAction::Delete,
    };
    let ghost all = text::texts(uploaded@);
    let mut v: Vec<String> = Vec::new();
    let mut i: usize = 0;
    while i < uploaded.len()
        invariant
            i <= uploaded@.len(),
            all == text::texts(uploaded@),
            text::texts(v@) =~= plain_paths(all.take(i as int)),
        decreases uploaded@.len() - i,
    {
        let ghost before = v@;
        v.push(drop_prefix(&uploaded[i], db::EXTENDED_PREFIX));
        proof {
            assert(all[i as int] == uploaded@[i as int]@);
            assert(text::texts(v@) =~= text::texts(before).push(v@.last()@));
            assert(plain_paths(all.take(i + 1)) =~= plain_paths(all.take(i as int)).push(
                text::without_prefix(all[i as int], db::EXTENDED_PREFIX@),
            ));
        }
        i += 1;
    }
    assert(all.take(all.len() as int) =~= all);
    Some((action, v))
}

// ── Laws ────────────────────────────────────────────────────────────────────

/// Saving a window that was not edited changes nothing of the configuration.
pub proof fn law_saving_unedited_settings_changes_nothing(w: SettingsApp, c: Config)
    requires
        shows(w, c),
    ensures
        edited(w) == c,
{
}

/// Saving folders changes no path and no id, and adds and removes no folder.
pub proof fn law_saving_folders_keeps_their_paths(
    rows: Seq<db::FolderRow>,
    edits: Seq<db::FolderRow>,
    now: Seq<char>,
    k: int,
)
    requires
        0 <= k < rows.len(),
    ensures
        after_save(rows, edits, now).len() == rows.len(),
        after_save(rows, edits, now)[k].id == rows[k].id,
        after_save(rows, edits, now)[k].path == rows[k].path,
        after_save(rows, edits, now)[k].created_at == rows[k].created_at,
    decreases edits.len(),
{
    if edits.len() > 0 {
        law_saving_folders_keeps_their_paths(rows, edits.drop_last(), now, k);
    }
}

/// What is entered in the window is what is configured, and what it does not show
/// stays as it was.
pub proof fn law_entered_settings_are_saved(w: SettingsApp)
    ensures
        ({
            let c = edited(w);
            &&& c.server.url == w.server_url && c.server.api_key == w.api_key
            &&& c.server.device_id == w.device_name
            &&& c.upload.concurrency == w.concurrency && c.upload.order == w.upload_order
            &&& c.upload.max_retries == w.max_retries
            &&& c.upload.bandwidth_limit_kbps == w.bandwidth_limit
            &&& c.upload.timeout_secs == w.config.upload.timeout_secs
            &&& c.upload.trash_retention_days == w.config.upload.trash_retention_days
            &&& c.devices == w.config.devices
            &&& c.ui.start_with_windows == w.autostart
            &&& c.ui.minimize_to_tray == w.minimize_to_tray
            &&& c.ui.show_notifications == w.show_notifications
            &&& c.ui.notification_on_complete == w.notify_on_complete
            &&& c.ui.portable_mode == w.config.ui.portable_mode
            &&& c.advanced.poll_interval_secs == w.poll_interval
            &&& c.advanced.log_level == w.log_level
            &&& c.advanced.write_settle_ms == w.write_settle_ms
            &&& c.advanced.check_for_updates == w.check_for_updates
            &&& c.advanced.update_check_interval_hours == w.update_check_interval_hours
            &&& c.advanced.update_repo == w.update_repo
        }),
{
}

/// A folder that was not edited stays as it is; one that was has its edited
/// settings, and its id, path, origin and time of creation as before.
pub proof fn law_edited_folders_are_saved(
    rows: Seq<db::FolderRow>,
    edits: Seq<db::FolderRow>,
    now: Seq<char>,
    k: int,
)
    requires
        0 <= k < rows.len(),
    ensures
        ({
            let r = after_save(rows, edits, now)[k];
            &&& r.auto_added == rows[k].auto_added
            &&& (forall|i: int| 0 <= i < edits.len() ==> (#[trigger] edits[i]).id != rows[k].id)
                ==> r == rows[k]
            &&& forall|i: int|
                0 <= i < edits.len() && (#[trigger] edits[i]).id == rows[k].id && (forall|j: int|
                    i < j < edits.len() ==> (#[trigger] edits[j]).id != rows[k].id) ==> {
                    &&& r.label == edits[i].label && r.enabled == edits[i].enabled
                    &&& r.watch_mode == edits[i].watch_mode
                    &&& r.poll_interval_secs == edits[i].poll_interval_secs
                    &&& r.album_mode == edits[i].album_mode
                    &&& r.album_name == edits[i].album_name
                    &&& r.include_patterns == edits[i].include_patterns
                    &&& r.exclude_patterns == edits[i].exclude_patterns
                    &&& r.post_upload == edits[i].post_upload
                    &&& r.ignore_online_files == edits[i].ignore_online_files
                    &&& r.updated_at == now
                }
        }),
    decreases edits.len(),
{
    law_saving_folders_keeps_their_paths(rows, edits, now, k);
    if edits.len() > 0 {
        let d = edits.drop_last();
        law_saving_folders_keeps_their_paths(rows, d, now, k);
        law_edited_folders_are_saved(rows, d, now, k);
        let before = after_save(rows, d, now)[k];
        let r = after_save(rows, edits, now)[k];
        let last = edits.len() - 1;
        if edits[last].id != rows[k].id {
            assert(r == before);
            assert forall|i: int| 0 <= i < d.len() implies #[trigger] d[i] == edits[i] by {}
            assert forall|i: int|
                0 <= i < edits.len() && (#[trigger] edits[i]).id == rows[k].id && (forall|j: int|
                    i < j < edits.len() ==> (#[trigger] edits[j]).id != rows[k].id) implies {
                &&& r.label == edits[i].label && r.enabled == edits[i].enabled
                &&& r.watch_mode == edits[i].watch_mode
                &&& r.poll_interval_secs == edits[i].poll_interval_secs
                &&& r.album_mode == edits[i].album_mode
                &&& r.album_name == edits[i].album_name
                &&& r.include_patterns == edits[i].include_patterns
                &&& r.exclude_patterns == edits[i].exclude_patterns
                &&& r.post_upload == edits[i].post_upload
                &&& r.ignore_online_files == edits[i].ignore_online_files
                &&& r.updated_at == now
            } by {
                assert(d[i] == edits[i]);
                assert forall|j: int| i < j < d.len() implies (#[trigger] d[j]).id != rows[k].id by {
                    assert(edits[j].id != rows[k].id);
                }
            }
            if forall|i: int| 0 <= i < edits.len() ==> (#[trigger] edits[i]).id != rows[k].id {
                assert forall|i: int| 0 <= i < d.len() implies (#[trigger] d[i]).id
                    != rows[k].id by {
                    assert(edits[i].id != rows[k].id);
                }
            }
        } else {
            assert forall|i: int|
                0 <= i < edits.len() && (#[trigger] edits[i]).id == rows[k].id && (forall|j: int|
                    i < j < edits.len() ==> (#[trigger] edits[j]).id != rows[k].id) implies i
                == last by {
                if i < last {
                    assert(edits[last].id != rows[k].id);
                }
            }
        }
    }
}

/// A folder that goes to an album of its own choice has a name for it, if only an
/// empty one; nothing else changes by showing it.
pub proof fn law_showing_a_folder_names_its_album(r: db::FolderRow)
    ensures
        ({
            let s = shown_folder(r);
            &&& r.album_mode is Fixed && r.album_name is None ==> s.album_name == Some(""@)
            &&& !(r.album_mode is Fixed) || r.album_name is Some ==> s == r
            &&& s.id == r.id && s.path == r.path && s.enabled == r.enabled
            &&& s.album_mode == r.album_mode && s.post_upload == r.post_upload
        }),
{
}

/// The card of a folder shows what is stored of it, the name of an album only where
/// one can be chosen, and an offer for uploaded files only where these do not stay.
pub proof fn law_card_shows_its_folder(c: FolderCard, f: WatchedFolder, checked: bool)
    requires
        is_card_of(c, f, checked),
    ensures
        c.id == f.id && c.enabled == f.enabled && c.path == f.path,
        AlbumMode::decoded(c.album.code@) == f.album_mode,
        PostUpload::decoded(c.post_upload.code@) == f.post_upload,
        c.album_name is Some <==> f.album_mode is Fixed,
        f.album_mode is Fixed ==> (f.album_name matches Some(n) ==> c.album_name->0@ == n@),
        c.existing is Some <==> !(f.post_upload is Keep),
        c.existing matches Some(e) ==> e.1 == checked,
{
    db::law_codes_read_back(
        db::WatchMode::Native,
        f.album_mode,
        f.post_upload,
        db::QueueStatus::Pending,
    );
}

/// Files are dealt with under their plain paths, each of them, in order.
pub proof fn law_uploaded_files_have_plain_paths(paths: Seq<Seq<char>>, i: int)
    requires
        0 <= i < paths.len(),
    ensures
        plain_paths(paths).len() == paths.len(),
        db::EXTENDED_PREFIX@.is_prefix_of(paths[i]) ==> paths[i] == db::EXTENDED_PREFIX@
            + plain_paths(paths)[i],
        !db::EXTENDED_PREFIX@.is_prefix_of(paths[i]) ==> plain_paths(paths)[i] == paths[i],
{
    text::law_prefix_is_removed(paths[i], db::EXTENDED_PREFIX@);
}

/// What a test of the connection says goes by what came of it.
pub proof fn law_test_says_what_came_of_it(m: String)
    ensures
        test_text(TestOutcome::Answered(true)) == "Connected!"@,
        test_text(TestOutcome::Answered(false)) == "Server responded but not ready"@,
        test_text(TestOutcome::Failed(m)) == "Failed: "@ + m@,
        test_text(TestOutcome::NotRun(m)) == "Runtime error: "@ + m@,
{
}

} // verus!
