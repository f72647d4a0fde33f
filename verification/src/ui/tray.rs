//! The tray icon and its menu.
//!
//! [`TrayApp`] is the model: what the icon, the tooltip and every menu item
//! show. Whoever shows the tray renders it and sends back the ids of the items
//! that are clicked.

use vstd::prelude::*;

use crate::text;
use crate::text::{concat2, concat3, str_eq, u64_text};

verus! {

broadcast use vstd::seq::group_seq_axioms;

/// What the tray shows.
#[derive(Debug)]
pub enum TrayState {
    /// Watching; nothing in the queue.
    Idle,
    /// Uploading.
    Syncing { current: u32, total: u32 },
    /// Paused by the user.
    Paused,
    /// Something is wrong.
    Error(String),
    /// The server cannot be reached.
    Offline,
}

/// The contents of a [`TrayState`].
pub enum TrayStatus {
    Idle,
    Syncing { current: u32, total: u32 },
    Paused,
    Error(Seq<char>),
    Offline,
}

impl View for TrayState {
    type V = TrayStatus;

    open spec fn view(&self) -> TrayStatus {
        match *self {
            TrayState::Idle => TrayStatus::Idle,
            TrayState::Syncing { current, total } => TrayStatus::Syncing { current, total },
            TrayState::Paused => TrayStatus::Paused,
            TrayState::Error(m) => TrayStatus::Error(m@),
            TrayState::Offline => TrayStatus::Offline,
        }
    }
}

/// Why the tray icon could not be shown.
#[derive(Debug)]
pub enum TrayError {
    IconCreate(String),
    Build(String),
}

/// The text of a [`TrayError`].
pub open spec fn tray_message(e: TrayError) -> Seq<char> {
    match e {
        TrayError::IconCreate(m) => "failed to create tray icon: "@ + m@,
        TrayError::Build(m) => "failed to build tray icon: "@ + m@,
    }
}

impl TrayError {
    /// The message shown to the user.
    pub fn message(&self) -> (r: String)
        ensures
            r@ == tray_message(*self),
    {
        match self {
            TrayError::IconCreate(m) => concat2("failed to create tray icon: ", m),
            TrayError::Build(m) => concat2("failed to build tray icon: ", m),
        }
    }
}

/// What the user asked for in the menu.
#[derive(Debug, Clone, Copy, PartialEq, Eq, Structural)]
pub enum TrayAction {
    Pause,
    Resume,
    UploadNow,
    OpenSettings,
    About,
    ViewLog,
    ViewTrash,
    CheckForUpdates,
    OpenUpdateDialog,
    RestartToUpdate,
    Quit,
}

// ── Ids ─────────────────────────────────────────────────────────────────────

pub const ID_PAUSE: &'static str = "pause";
pub const ID_RESUME: &'static str = "resume";
pub const ID_UPLOAD_NOW: &'static str = "upload_now";
pub const ID_SETTINGS: &'static str = "settings";
pub const ID_ABOUT: &'static str = "about";
pub const ID_VIEW_LOG: &'static str = "view_log";
pub const ID_VIEW_TRASH: &'static str = "view_trash";
pub const ID_CHECK_UPDATES: &'static str = "check_updates";
pub const ID_UPDATE_AVAILABLE: &'static str = "update_available";
pub const ID_RESTART_TO_UPDATE: &'static str = "restart_to_update";
pub const ID_QUIT: &'static str = "quit";

/// The id of the menu item of an action.
pub open spec fn id_of(a: TrayAction) -> Seq<char> {
    match a {
        TrayAction::Pause => ID_PAUSE@,
        TrayAction::Resume => ID_RESUME@,
        TrayAction::UploadNow => ID_UPLOAD_NOW@,
        TrayAction::OpenSettings => ID_SETTINGS@,
        TrayAction::About => ID_ABOUT@,
        TrayAction::ViewLog => ID_VIEW_LOG@,
        TrayAction::ViewTrash => ID_VIEW_TRASH@,
        TrayAction::CheckForUpdates => ID_CHECK_UPDATES@,
        TrayAction::OpenUpdateDialog => ID_UPDATE_AVAILABLE@,
        TrayAction::RestartToUpdate => ID_RESTART_TO_UPDATE@,
        TrayAction::Quit => ID_QUIT@,
    }
}

/// Different actions have items with different ids.
proof fn lemma_ids_differ(a: TrayAction, b: TrayAction)
    requires
        id_of(a) == id_of(b),
    ensures
        a == b,
{
    reveal_strlit("pause");
    reveal_strlit("resume");
    reveal_strlit("upload_now");
    reveal_strlit("settings");
    reveal_strlit("about");
    reveal_strlit("view_log");
    reveal_strlit("view_trash");
    reveal_strlit("check_updates");
    reveal_strlit("update_available");
    reveal_strlit("restart_to_update");
    reveal_strlit("quit");
    assert(ID_PAUSE@.len() == 5 && ID_PAUSE@[0] == 'p');
    assert(ID_RESUME@.len() == 6);
    assert(ID_UPLOAD_NOW@.len() == 10 && ID_UPLOAD_NOW@[0] == 'u');
    assert(ID_SETTINGS@.len() == 8 && ID_SETTINGS@[0] == 's');
    assert(ID_ABOUT@.len() == 5 && ID_ABOUT@[0] == 'a');
    assert(ID_VIEW_LOG@.len() == 8 && ID_VIEW_LOG@[0] == 'v');
    assert(ID_VIEW_TRASH@.len() == 10 && ID_VIEW_TRASH@[0] == 'v');
    assert(ID_CHECK_UPDATES@.len() == 13);
    assert(ID_UPDATE_AVAILABLE@.len() == 16);
    assert(ID_RESTART_TO_UPDATE@.len() == 17);
    assert(ID_QUIT@.len() == 4);
    assert(id_of(a).len() == id_of(b).len());
    assert(id_of(a)[0] == id_of(b)[0]);
}

/// The action of the menu item with this id.
pub fn action_for_id(id: &str) -> (r: Option<TrayAction>)
    ensures
        match r {
            Some(a) => id@ == id_of(a),
            None => forall|a: TrayAction| id@ != #[trigger] id_of(a),
        },
{
    if str_eq(id, ID_PAUSE) {
        Some(TrayAction::Pause)
    } else if str_eq(id, ID_RESUME) {
        Some(TrayAction::Resume)
    } else if str_eq(id, ID_UPLOAD_NOW) {
        Some(TrayAction::UploadNow)
    } else if str_eq(id, ID_SETTINGS) {
        Some(TrayAction::OpenSettings)
    } else if str_eq(id, ID_ABOUT) {
        Some(TrayAction::About)
    } else if str_eq(id, ID_VIEW_LOG) {
        Some(TrayAction::ViewLog)
    } else if str_eq(id, ID_VIEW_TRASH) {
        Some(TrayAction::ViewTrash)
    } else if str_eq(id, ID_CHECK_UPDATES) {
        Some(TrayAction::CheckForUpdates)
    } else if str_eq(id, ID_UPDATE_AVAILABLE) {
        Some(TrayAction::OpenUpdateDialog)
    } else if str_eq(id, ID_RESTART_TO_UPDATE) {
        Some(TrayAction::RestartToUpdate)
    } else if str_eq(id, ID_QUIT) {
        Some(TrayAction::Quit)
    } else {
        None
    }
}

/// An id names at most one action.
pub proof fn law_id_names_one_action(a: TrayAction, b: TrayAction)
    ensures
        id_of(a) == id_of(b) <==> a == b,
{
    if id_of(a) == id_of(b) {
        lemma_ids_differ(a, b);
    }
}

// ── Icon ────────────────────────────────────────────────────────────────────

/// Width and height of the icon in pixels.
pub const ICON_SIZE: usize = 16;

/// Whether a pixel lies in the disc of the icon: at most seven pixels from the
/// centre, which lies between the four middle pixels.
pub open spec fn in_disc(x: int, y: int) -> bool {
    (2 * x - 15) * (2 * x - 15) + (2 * y - 15) * (2 * y - 15) <= 4 * 7 * 7
}

/// A byte of the icon: four bytes a pixel (red, green, blue, opacity), row by
/// row.
pub open spec fn icon_byte(i: int, r: u8, g: u8, b: u8) -> u8 {
    let x = i / 4 % 16;
    let y = i / 64;
    if !in_disc(x, y) {
        0
    } else if i % 4 == 0 {
        r
    } else if i % 4 == 1 {
        g
    } else if i % 4 == 2 {
        b
    } else {
        255
    }
}

/// A disc of a colour on a transparent background.
pub fn generate_icon_rgba(r: u8, g: u8, b: u8) -> (v: Vec<u8>)
    ensures
        v@.len() == 1024,
        forall|i: int| 0 <= i < 1024 ==> #[trigger] v@[i] == icon_byte(i, r, g, b),
{
    let mut v: Vec<u8> = Vec::new();
    let mut y: i32 = 0;
    while y < 16
        invariant
            0 <= y <= 16,
            v@.len() == 64 * y,
            forall|i: int| 0 <= i < 64 * y ==> #[trigger] v@[i] == icon_byte(i, r, g, b),
        decreases 16 - y,
    {
        let mut x: i32 = 0;
        while x < 16
            invariant
                0 <= x <= 16,
                0 <= y < 16,
                v@.len() == 64 * y + 4 * x,
                forall|i: int| 0 <= i < 64 * y + 4 * x ==> #[trigger] v@[i] == icon_byte(i, r, g, b),
            decreases 16 - x,
        {
            let dx: i32 = 2 * x - 15;
            let dy: i32 = 2 * y - 15;
            assert(-15 <= dx <= 15 && -15 <= dy <= 15);
            assert(0 <= dx * dx <= 225 && 0 <= dy * dy <= 225) by (nonlinear_arith)
                requires
                    -15 <= dx <= 15,
                    -15 <= dy <= 15,
            ;
            let inside: bool = dx * dx + dy * dy <= 196;
            let ghost k = 64 * y + 4 * x;
            assert(k / 4 % 16 == x && k / 64 == y && k % 4 == 0);
            assert((k + 1) / 4 % 16 == x && (k + 1) / 64 == y && (k + 1) % 4 == 1);
            assert((k + 2) / 4 % 16 == x && (k + 2) / 64 == y && (k + 2) % 4 == 2);
            assert((k + 3) / 4 % 16 == x && (k + 3) / 64 == y && (k + 3) % 4 == 3);
            assert(inside == in_disc(x as int, y as int));
            if inside {
                v.push(r);
                v.push(g);
                v.push(b);
                v.push(255);
            } else {
                v.push(0);
                v.push(0);
                v.push(0);
                v.push(0);
            }
            x += 1;
        }
        y += 1;
    }
    v
}

/// The colour of the icon: green when idle, blue when uploading, yellow when
/// paused, red on an error, grey when offline.
pub open spec fn colour_of(s: TrayStatus) -> (u8, u8, u8) {
    match s {
        TrayStatus::Idle => (0x4C, 0xAF, 0x50),
        TrayStatus::Syncing { .. } => (0x21, 0x96, 0xF3),
        TrayStatus::Paused => (0xFF, 0xC1, 0x07),
        TrayStatus::Error(_) => (0xF4, 0x43, 0x36),
        TrayStatus::Offline => (0x9E, 0x9E, 0x9E),
    }
}

/// The icon of a state.
pub fn icon_for_state(state: &TrayState) -> (v: Vec<u8>)
    ensures
        v@.len() == 1024,
        forall|i: int|
            0 <= i < 1024 ==> #[trigger] v@[i] == icon_byte(
                i,
                colour_of(state@).0,
                colour_of(state@).1,
                colour_of(state@).2,
            ),
{
    match state {
        TrayState::Idle => generate_icon_rgba(0x4C, 0xAF, 0x50),
        TrayState::Syncing { .. } => generate_icon_rgba(0x21, 0x96, 0xF3),
        TrayState::Paused => generate_icon_rgba(0xFF, 0xC1, 0x07),
        TrayState::Error(_) => generate_icon_rgba(0xF4, 0x43, 0x36),
        TrayState::Offline => generate_icon_rgba(0x9E, 0x9E, 0x9E),
    }
}

// ── Texts ───────────────────────────────────────────────────────────────────

/// `a/b` in decimal.
pub open spec fn ratio(a: u32, b: u32) -> Seq<char> {
    text::decimal(a as nat) + "/"@ + text::decimal(b as nat)
}

fn ratio_text(a: u32, b: u32) -> (r: String)
    ensures
        r@ == ratio(a, b),
{
    concat3(&u64_text(a as u64), "/", &u64_text(b as u64))
}

/// The tooltip of a state.
pub open spec fn tooltip_of(s: TrayStatus) -> Seq<char> {
    match s {
        TrayStatus::Idle => "ImmichSync — Idle"@,
        TrayStatus::Syncing { current, total } => "ImmichSync — Uploading "@ + ratio(
            current,
            total,
        ),
        TrayStatus::Paused => "ImmichSync — Paused"@,
        TrayStatus::Error(m) => "ImmichSync — Error: "@ + m,
        TrayStatus::Offline => "ImmichSync — Offline"@,
    }
}

/// The tooltip of a state.
pub fn tooltip_for_state(state: &TrayState) -> (r: String)
    ensures
        r@ == tooltip_of(state@),
{
    match state {
        TrayState::Idle => "ImmichSync — Idle".to_owned(),
        TrayState::Syncing { current, total } => concat2(
            "ImmichSync — Uploading ",
            &ratio_text(*current, *total),
        ),
        TrayState::Paused => "ImmichSync — Paused".to_owned(),
        TrayState::Error(m) => concat2("ImmichSync — Error: ", m),
        TrayState::Offline => "ImmichSync — Offline".to_owned(),
    }
}

/// The status line of a state.
pub open spec fn status_of(s: TrayStatus) -> Seq<char> {
    match s {
        TrayStatus::Idle => "Idle — watching for new files"@,
        TrayStatus::Syncing { current, total } => "Uploading "@ + ratio(current, total)
            + " files…"@,
        TrayStatus::Paused => "Paused"@,
        TrayStatus::Error(m) => "Error: "@ + m,
        TrayStatus::Offline => "Server offline"@,
    }
}

/// The status line of a state.
pub fn status_text_for_state(state: &TrayState) -> (r: String)
    ensures
        r@ == status_of(state@),
{
    match state {
        TrayState::Idle => "Idle — watching for new files".to_owned(),
        TrayState::Syncing { current, total } => concat3(
            "Uploading ",
            &ratio_text(*current, *total),
            " files…",
        ),
        TrayState::Paused => "Paused".to_owned(),
        TrayState::Error(m) => concat2("Error: ", m),
        TrayState::Offline => "Server offline".to_owned(),
    }
}

/// The line that shows the server.
pub open spec fn server_line(url: Seq<char>, connected: bool) -> Seq<char> {
    "Server: "@ + url + if connected {
        " [connected]"@
    } else {
        " [offline]"@
    }
}

// ── Menu ────────────────────────────────────────────────────────────────────

/// An entry of the menu.
#[derive(Debug)]
pub enum MenuEntry {
    Separator,
    /// An item: its id, if it can be clicked at all; its text; whether it can
    /// be clicked now.
    Item { id: Option<&'static str>, text: String, enabled: bool },
}

/// The contents of a [`MenuEntry`].
pub enum EntryView {
    Separator,
    Item { id: Option<Seq<char>>, text: Seq<char>, enabled: bool },
}

impl View for MenuEntry {
    type V = EntryView;

    open spec fn view(&self) -> EntryView {
        match *self {
            MenuEntry::Separator => EntryView::Separator,
            MenuEntry::Item { id, text, enabled } => EntryView::Item {
                id: match id {
                    Some(s) => Some(s@),
                    None => None,
                },
                text: text@,
                enabled,
            },
        }
    }
}

/// The contents of a list of entries.
pub open spec fn entries(v: Seq<MenuEntry>) -> Seq<EntryView> {
    v.map_values(|e: MenuEntry| e@)
}

/// The tray: its state, and the parts of the menu that change.
pub struct TrayApp {
    state: TrayState,
    server_status: String,
    update_version: Option<String>,
    restart_version: Option<String>,
}

/// The contents of a [`TrayApp`].
#[verifier::ext_equal]
pub struct TrayModel {
    pub state: TrayStatus,
    /// The line that shows the server.
    pub server_status: Seq<char>,
    /// The version that can be downloaded, if any.
    pub update_version: Option<Seq<char>>,
    /// The version that a restart brings, if any.
    pub restart_version: Option<Seq<char>>,
}

impl View for TrayApp {
    type V = TrayModel;

    closed spec fn view(&self) -> TrayModel {
        TrayModel {
            state: self.state@,
            server_status: self.server_status@,
            update_version: text::opt_text(self.update_version),
            restart_version: text::opt_text(self.restart_version),
        }
    }
}

/// An item that can be clicked.
pub open spec fn clickable(id: Seq<char>, text: Seq<char>, enabled: bool) -> EntryView {
    EntryView::Item { id: Some(id), text, enabled }
}

/// A line that only shows something.
pub open spec fn label(text: Seq<char>) -> EntryView {
    EntryView::Item { id: None, text, enabled: false }
}

/// The text of the item that offers an update.
pub open spec fn update_text(version: Option<Seq<char>>) -> Seq<char> {
    match version {
        Some(v) => "Update Available (v"@ + v + ")!"@,
        None => "Update Available!"@,
    }
}

/// The text of the item that restarts into an update.
pub open spec fn restart_text(version: Option<Seq<char>>) -> Seq<char> {
    match version {
        Some(v) => "Restart to Update (v"@ + v + ")"@,
        None => "Restart to Update"@,
    }
}

/// The menu, from top to bottom. Either pausing or resuming can be clicked, and
/// the items about an update only while there is one.
pub open spec fn menu_of(m: TrayModel) -> Seq<EntryView> {
    let paused = m.state is Paused;
    seq![
        label("ImmichSync"@),
        EntryView::Separator,
        label(status_of(m.state)),
        EntryView::Separator,
        clickable(ID_PAUSE@, "Pause Sync"@, !paused),
        clickable(ID_RESUME@, "Resume Sync"@, paused),
        clickable(ID_UPLOAD_NOW@, "Upload Now"@, true),
        EntryView::Separator,
        clickable(ID_SETTINGS@, "Settings"@, true),
        clickable(ID_VIEW_LOG@, "View Upload Log"@, true),
        clickable(ID_VIEW_TRASH@, "View Trash"@, true),
        clickable(ID_ABOUT@, "About ImmichSync"@, true),
        clickable(ID_CHECK_UPDATES@, "Check for Updates"@, true),
        clickable(ID_UPDATE_AVAILABLE@, update_text(m.update_version), m.update_version is Some),
        clickable(
            ID_RESTART_TO_UPDATE@,
            restart_text(m.restart_version),
            m.restart_version is Some,
        ),
        EntryView::Separator,
        label(m.server_status),
        EntryView::Separator,
        clickable(ID_QUIT@, "Quit"@, true),
    ]
}

fn item(id: &'static str, text: &str, enabled: bool) -> (r: MenuEntry)
    ensures
        r@ == clickable(id@, text@, enabled),
{
    MenuEntry::Item { id: Some(id), text: text.to_owned(), enabled }
}

fn line(text: &str) -> (r: MenuEntry)
    ensures
        r@ == label(text@),
{
    MenuEntry::Item { id: None, text: text.to_owned(), enabled: false }
}

impl TrayApp {
    /// The tray at start-up.
    pub fn new() -> (r: TrayApp)
        ensures
            r@ == (TrayModel {
                state: TrayStatus::Idle,
                server_status: "Server: (not configured)"@,
                update_version: None,
                restart_version: None,
            }),
    {
        TrayApp {
            state: TrayState::Idle,
            server_status: "Server: (not configured)".to_owned(),
            update_version: None,
            restart_version: None,
        }
    }

    /// The menu, from top to bottom.
    pub fn menu(&self) -> (r: Vec<MenuEntry>)
        ensures
            entries(r@) == menu_of(self@),
    {
        let paused: bool = match self.state {
            TrayState::Paused => true,
            _ => false,
        };
        let update: String = match &self.update_version {
            Some(v) => concat3("Update Available (v", v, ")!"),
            None => "Update Available!".to_owned(),
        };
        let restart: String = match &self.restart_version {
            Some(v) => concat3("Restart to Update (v", v, ")"),
            None => "Restart to Update".to_owned(),
        };
        let mut r: Vec<MenuEntry> = Vec::new();
        r.push(line("ImmichSync"));
        r.push(MenuEntry::Separator);
        r.push(line(&status_text_for_state(&self.state)));
        r.push(MenuEntry::Separator);
        r.push(item(ID_PAUSE, "Pause Sync", !paused));
        r.push(item(ID_RESUME, "Resume Sync", paused));
        r.push(item(ID_UPLOAD_NOW, "Upload Now", true));
        r.push(MenuEntry::Separator);
        r.push(item(ID_SETTINGS, "Settings", true));
        r.push(item(ID_VIEW_LOG, "View Upload Log", true));
        r.push(item(ID_VIEW_TRASH, "View Trash", true));
        r.push(item(ID_ABOUT, "About ImmichSync", true));
        r.push(item(ID_CHECK_UPDATES, "Check for Updates", true));
        r.push(item(ID_UPDATE_AVAILABLE, &update, self.update_version.is_some()));
        r.push(item(ID_RESTART_TO_UPDATE, &restart, self.restart_version.is_some()));
        r.push(MenuEntry::Separator);
        r.push(line(&self.server_status));
        r.push(MenuEntry::Separator);
        r.push(item(ID_QUIT, "Quit", true));
        assert(entries(r@) =~= menu_of(self@));
        r
    }

    /// The icon.
    pub fn icon(&self) -> (v: Vec<u8>)
        ensures
            v@.len() == 1024,
            forall|i: int|
                0 <= i < 1024 ==> #[trigger] v@[i] == icon_byte(
                    i,
                    colour_of(self@.state).0,
                    colour_of(self@.state).1,
                    colour_of(self@.state).2,
                ),
    {
        icon_for_state(&self.state)
    }

    /// The tooltip.
    pub fn tooltip(&self) -> (r: String)
        ensures
            r@ == tooltip_of(self@.state),
    {
        tooltip_for_state(&self.state)
    }

    /// Show another state.
    pub fn update_state(&mut self, state: TrayState)
        ensures
            final(self)@ == (TrayModel { state: state@, ..old(self)@ }),
    {
        self.state = state;
    }

    /// Show whether the server can be reached.
    pub fn set_server_status(&mut self, url: &str, connected: bool)
        ensures
            final(self)@ == (TrayModel {
                server_status: server_line(url@, connected),
                ..old(self)@
            }),
    {
        self.server_status = if connected {
            concat3("Server: ", url, " [connected]")
        } else {
            concat3("Server: ", url, " [offline]")
        };
    }

    /// Offer an update, or stop offering one.
    pub fn set_update_available(&mut self, version: Option<&str>)
        ensures
            final(self)@ == (TrayModel { update_version: version.deep_view(), ..old(self)@ }),
    {
        self.update_version = text::owned_opt(version);
    }

    /// Offer a restart into an update, in place of the update itself; or stop
    /// offering a restart.
    pub fn set_restart_to_update(&mut self, version: Option<&str>)
        ensures
            final(self)@ == (TrayModel {
                restart_version: version.deep_view(),
                update_version: if version is Some {
                    None
                } else {
                    old(self)@.update_version
                },
                ..old(self)@
            }),
    {
        self.restart_version = text::owned_opt(version);
        if version.is_some() {
            self.update_version = None;
        }
    }
}

/// Exactly one of pausing and resuming can be clicked, in every state.
pub proof fn law_pause_or_resume(m: TrayModel)
    ensures
        menu_of(m)[4]->Item_enabled <==> !menu_of(m)[5]->Item_enabled,
        menu_of(m)[4]->Item_id == Some(id_of(TrayAction::Pause)),
        menu_of(m)[5]->Item_id == Some(id_of(TrayAction::Resume)),
{
}

/// Every item that can be clicked stands for an action.
pub proof fn law_every_item_has_an_action(m: TrayModel, i: int)
    requires
        0 <= i < menu_of(m).len(),
        menu_of(m)[i] is Item,
        menu_of(m)[i]->Item_enabled,
    ensures
        exists|a: TrayAction| menu_of(m)[i]->Item_id == Some(#[trigger] id_of(a)),
{
    if i == 4 {
        assert(menu_of(m)[i]->Item_id == Some(id_of(TrayAction::Pause)));
    } else if i == 5 {
        assert(menu_of(m)[i]->Item_id == Some(id_of(TrayAction::Resume)));
    } else if i == 6 {
        assert(menu_of(m)[i]->Item_id == Some(id_of(TrayAction::UploadNow)));
    } else if i == 8 {
        assert(menu_of(m)[i]->Item_id == Some(id_of(TrayAction::OpenSettings)));
    } else if i == 9 {
        assert(menu_of(m)[i]->Item_id == Some(id_of(TrayAction::ViewLog)));
    } else if i == 10 {
        assert(menu_of(m)[i]->Item_id == Some(id_of(TrayAction::ViewTrash)));
    } else if i == 11 {
        assert(menu_of(m)[i]->Item_id == Some(id_of(TrayAction::About)));
    } else if i == 12 {
        assert(menu_of(m)[i]->Item_id == Some(id_of(TrayAction::CheckForUpdates)));
    } else if i == 13 {
        assert(menu_of(m)[i]->Item_id == Some(id_of(TrayAction::OpenUpdateDialog)));
    } else if i == 14 {
        assert(menu_of(m)[i]->Item_id == Some(id_of(TrayAction::RestartToUpdate)));
    } else if i == 18 {
        assert(menu_of(m)[i]->Item_id == Some(id_of(TrayAction::Quit)));
    }
}

/// The icon is a disc of the colour: points are drawn in it or not at all, and it
/// looks the same from each side.
pub proof fn law_icon_is_a_disc(x: int, y: int, r: u8, g: u8, b: u8)
    requires
        0 <= x < 16,
        0 <= y < 16,
    ensures
        in_disc(x, y) <==> (2 * x - 15) * (2 * x - 15) + (2 * y - 15) * (2 * y - 15) <= 196,
        in_disc(x, y) == in_disc(15 - x, y),
        in_disc(x, y) == in_disc(y, x),
        ({
            let i = 64 * y + 4 * x;
            &&& in_disc(x, y) ==> icon_byte(i, r, g, b) == r && icon_byte(i + 1, r, g, b) == g
                && icon_byte(i + 2, r, g, b) == b && icon_byte(i + 3, r, g, b) == 255
            &&& !in_disc(x, y) ==> icon_byte(i, r, g, b) == 0 && icon_byte(i + 1, r, g, b) == 0
                && icon_byte(i + 2, r, g, b) == 0 && icon_byte(i + 3, r, g, b) == 0
        }),
{
    let m = 15 - x;
    assert((2 * m - 15) * (2 * m - 15) == (2 * x - 15) * (2 * x - 15)) by (nonlinear_arith)
        requires
            m == 15 - x,
    ;
}

/// Each state has a colour of its own.
pub proof fn law_states_are_told_by_their_colour(a: TrayStatus, b: TrayStatus)
    ensures
        colour_of(a) == colour_of(b) <==> {
            ||| a is Idle && b is Idle
            ||| a is Syncing && b is Syncing
            ||| a is Paused && b is Paused
            ||| a is Error && b is Error
            ||| a is Offline && b is Offline
        },
        a is Idle ==> colour_of(a) == (76u8, 175u8, 80u8),
        a is Syncing ==> colour_of(a) == (33u8, 150u8, 243u8),
        a is Paused ==> colour_of(a) == (255u8, 193u8, 7u8),
        a is Error ==> colour_of(a) == (244u8, 67u8, 54u8),
        a is Offline ==> colour_of(a) == (158u8, 158u8, 158u8),
{
}

/// Tooltip and menu say what goes on: how many files of how many are uploaded, and
/// what went wrong.
pub proof fn law_tray_says_what_goes_on(current: u32, total: u32, m: Seq<char>)
    ensures
        tooltip_of(TrayStatus::Syncing { current, total }) == "ImmichSync — Uploading "@
            + text::decimal(current as nat) + "/"@ + text::decimal(total as nat),
        status_of(TrayStatus::Syncing { current, total }) == "Uploading "@ + text::decimal(
            current as nat,
        ) + "/"@ + text::decimal(total as nat) + " files…"@,
        tooltip_of(TrayStatus::Error(m)) == "ImmichSync — Error: "@ + m,
        status_of(TrayStatus::Error(m)) == "Error: "@ + m,
        tooltip_of(TrayStatus::Idle) == "ImmichSync — Idle"@,
        tooltip_of(TrayStatus::Paused) == "ImmichSync — Paused"@,
        tooltip_of(TrayStatus::Offline) == "ImmichSync — Offline"@,
        status_of(TrayStatus::Idle) == "Idle — watching for new files"@,
        status_of(TrayStatus::Paused) == "Paused"@,
        status_of(TrayStatus::Offline) == "Server offline"@,
{
    let a = text::decimal(current as nat);
    let b = text::decimal(total as nat);
    assert("ImmichSync — Uploading "@ + ratio(current, total) =~= "ImmichSync — Uploading "@ + a
        + "/"@ + b);
    assert("Uploading "@ + ratio(current, total) + " files…"@ =~= "Uploading "@ + a + "/"@ + b
        + " files…"@);
}

/// Whether the menu offers an action: it has an item for it that can be clicked.
pub open spec fn offers(m: TrayModel, a: TrayAction) -> bool {
    exists|i: int|
        0 <= i < menu_of(m).len() && (#[trigger] menu_of(m)[i] matches EntryView::Item {
            id,
            enabled,
            ..
        } && id == Some(id_of(a)) && enabled)
}

/// Every action can be chosen from the menu: pausing unless uploads are paused and
/// resuming where they are, the update dialog and the restart where there is an
/// update for them, and all others always.
pub proof fn law_menu_offers_every_action(m: TrayModel)
    ensures
        !(m.state is Paused) ==> offers(m, TrayAction::Pause),
        m.state is Paused ==> offers(m, TrayAction::Resume),
        offers(m, TrayAction::UploadNow),
        offers(m, TrayAction::OpenSettings),
        offers(m, TrayAction::ViewLog),
        offers(m, TrayAction::ViewTrash),
        offers(m, TrayAction::About),
        offers(m, TrayAction::CheckForUpdates),
        m.update_version is Some ==> offers(m, TrayAction::OpenUpdateDialog),
        m.restart_version is Some ==> offers(m, TrayAction::RestartToUpdate),
        offers(m, TrayAction::Quit),
{
    let v = menu_of(m);
    assert(v[4] == clickable(ID_PAUSE@, "Pause Sync"@, !(m.state is Paused)));
    assert(v[5] == clickable(ID_RESUME@, "Resume Sync"@, m.state is Paused));
    assert(v[6] == clickable(ID_UPLOAD_NOW@, "Upload Now"@, true));
    assert(v[8] == clickable(ID_SETTINGS@, "Settings"@, true));
    assert(v[9] == clickable(ID_VIEW_LOG@, "View Upload Log"@, true));
    assert(v[10] == clickable(ID_VIEW_TRASH@, "View Trash"@, true));
    assert(v[11] == clickable(ID_ABOUT@, "About ImmichSync"@, true));
    assert(v[12] == clickable(ID_CHECK_UPDATES@, "Check for Updates"@, true));
    assert(v[13] == clickable(
        ID_UPDATE_AVAILABLE@,
        update_text(m.update_version),
        m.update_version is Some,
    ));
    assert(v[14] == clickable(
        ID_RESTART_TO_UPDATE@,
        restart_text(m.restart_version),
        m.restart_version is Some,
    ));
    assert(v[18] == clickable(ID_QUIT@, "Quit"@, true));
}

/// Pausing and resuming cannot be chosen twice, and no update that is not there.
pub proof fn law_menu_offers_nothing_in_vain(m: TrayModel)
    ensures
        m.state is Paused ==> !offers(m, TrayAction::Pause),
        !(m.state is Paused) ==> !offers(m, TrayAction::Resume),
        m.update_version is None ==> !offers(m, TrayAction::OpenUpdateDialog),
        m.restart_version is None ==> !offers(m, TrayAction::RestartToUpdate),
{
    law_ids_are_apart(m, TrayAction::Pause, 4);
    law_ids_are_apart(m, TrayAction::Resume, 5);
    law_ids_are_apart(m, TrayAction::OpenUpdateDialog, 13);
    law_ids_are_apart(m, TrayAction::RestartToUpdate, 14);
}

/// The menu has one item for an action: where the item at `k` is for it, no other
/// one is.
pub proof fn law_ids_are_apart(m: TrayModel, a: TrayAction, k: int)
    requires
        0 <= k < menu_of(m).len(),
        menu_of(m)[k] matches EntryView::Item { id, .. } && id == Some(id_of(a)),
    ensures
        forall|i: int|
            0 <= i < menu_of(m).len() && i != k ==> !(#[trigger] menu_of(m)[i] matches EntryView::Item {
                id,
                ..
            } && id == Some(id_of(a))),
{
    law_id_names_one_action(a, TrayAction::Pause);
    law_id_names_one_action(a, TrayAction::Resume);
    law_id_names_one_action(a, TrayAction::UploadNow);
    law_id_names_one_action(a, TrayAction::OpenSettings);
    law_id_names_one_action(a, TrayAction::ViewLog);
    law_id_names_one_action(a, TrayAction::ViewTrash);
    law_id_names_one_action(a, TrayAction::About);
    law_id_names_one_action(a, TrayAction::CheckForUpdates);
    law_id_names_one_action(a, TrayAction::OpenUpdateDialog);
    law_id_names_one_action(a, TrayAction::RestartToUpdate);
    law_id_names_one_action(a, TrayAction::Quit);
}

/// The menu shows the state, the server and the versions that it is about.
pub proof fn law_menu_shows_the_state(m: TrayModel, v: Seq<char>)
    ensures
        exists|i: int|
            0 <= i < menu_of(m).len() && #[trigger] menu_of(m)[i] == label(status_of(m.state)),
        exists|i: int|
            0 <= i < menu_of(m).len() && #[trigger] menu_of(m)[i] == label(m.server_status),
        update_text(Some(v)) == "Update Available (v"@ + v + ")!"@,
        restart_text(Some(v)) == "Restart to Update (v"@ + v + ")"@,
        server_line(v, true) == "Server: "@ + v + " [connected]"@,
        server_line(v, false) == "Server: "@ + v + " [offline]"@,
{
    assert(menu_of(m)[2] == label(status_of(m.state)));
    assert(menu_of(m)[16] == label(m.server_status));
}

} // verus!
