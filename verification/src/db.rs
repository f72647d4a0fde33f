//! State tables of ImmichSync: watched folders, uploaded files, the upload
//! queue and a key-value table.
//!
//! [`Database`] holds the rows and performs every state transition. Rows are
//! kept in the order of their ids, and a new row gets the id after the largest
//! one in its table.

use vstd::prelude::*;

use crate::clock;
use crate::clock::now_text;
use crate::text;
use crate::text::{
    clone_opt, concat2, drop_prefix, ends_with_char, has_prefix_ignore_ascii_case, owned_opt, parse_u32,
    str_eq, text_less, u64_text,
};

verus! {

broadcast use vstd::seq::group_seq_axioms;

// ── Errors ──────────────────────────────────────────────────────────────────

/// Why a table refused an operation.
#[derive(Debug, Clone, Copy, PartialEq, Eq, Structural)]
pub enum DbError {
    /// A folder with the same path is already watched.
    DuplicatePath,
    /// The row refers to a folder that is not there, or is itself referred to.
    ForeignKey,
    /// The largest id of the table is taken.
    IdsExhausted,
    /// Rows that do not form a valid database.
    Corrupt,
}

// ── Domain enums ────────────────────────────────────────────────────────────

/// How a watched folder receives filesystem change notifications.
#[derive(Debug, Clone, Copy, PartialEq, Eq, Structural)]
pub enum WatchMode {
    /// Change notifications of the operating system.
    Native,
    /// Periodic polling, for network and exotic filesystems.
    Poll,
}

impl WatchMode {
    /// The text that stands for the mode in a row.
    pub open spec fn code(self) -> Seq<char> {
        match self {
            WatchMode::Native => "native"@,
            WatchMode::Poll => "poll"@,
        }
    }

    /// The mode that a text in a row stands for.
    pub open spec fn decoded(s: Seq<char>) -> WatchMode {
        if s == "poll"@ {
            WatchMode::Poll
        } else {
            WatchMode::Native
        }
    }

    pub fn as_str(&self) -> (r: &'static str)
        ensures
            r@ == self.code(),
    {
        match self {
            WatchMode::Native => "native",
            WatchMode::Poll => "poll",
        }
    }

    /// Any text but `poll` means native watching.
    pub fn from_str(s: &str) -> (r: Self)
        ensures
            r == WatchMode::decoded(s@),
    {
        if str_eq(s, "poll") {
            WatchMode::Poll
        } else {
            WatchMode::Native
        }
    }
}

/// How files from a watched folder are assigned to Immich albums.
#[derive(Debug, Clone, Copy, PartialEq, Eq, Structural)]
pub enum AlbumMode {
    /// Do not add to any album.
    NoAlbum,
    /// An album named after the watched folder.
    Folder,
    /// An album named after the file's immediate parent directory.
    Subfolder,
    /// An album named `YYYY-MM` after the file's date.
    Date,
    /// A specific album chosen by the user.
    Fixed,
}

impl AlbumMode {
    /// The text that stands for the mode in a row.
    pub open spec fn code(self) -> Seq<char> {
        match self {
            AlbumMode::NoAlbum => "none"@,
            AlbumMode::Folder => "folder"@,
            AlbumMode::Subfolder => "subfolder"@,
            AlbumMode::Date => "date"@,
            AlbumMode::Fixed => "fixed"@,
        }
    }

    /// The mode that a text in a row stands for.
    pub open spec fn decoded(s: Seq<char>) -> AlbumMode {
        if s == "folder"@ {
            AlbumMode::Folder
        } else if s == "subfolder"@ {
            AlbumMode::Subfolder
        } else if s == "date"@ {
            AlbumMode::Date
        } else if s == "fixed"@ {
            AlbumMode::Fixed
        } else {
            AlbumMode::NoAlbum
        }
    }

    pub fn as_str(&self) -> (r: &'static str)
        ensures
            r@ == self.code(),
    {
        match self {
            AlbumMode::NoAlbum => "none",
            AlbumMode::Folder => "folder",
            AlbumMode::Subfolder => "subfolder",
            AlbumMode::Date => "date",
            AlbumMode::Fixed => "fixed",
        }
    }

    /// An unknown text means no album.
    pub fn from_str(s: &str) -> (r: Self)
        ensures
            r == AlbumMode::decoded(s@),
    {
        if str_eq(s, "folder") {
            AlbumMode::Folder
        } else if str_eq(s, "subfolder") {
            AlbumMode::Subfolder
        } else if str_eq(s, "date") {
            AlbumMode::Date
        } else if str_eq(s, "fixed") {
            AlbumMode::Fixed
        } else {
            AlbumMode::NoAlbum
        }
    }
}

/// What to do with a source file after a successful upload.
#[derive(Debug, Clone, Copy, PartialEq, Eq, Structural)]
pub enum PostUpload {
    /// Leave the file in place.
    Keep,
    /// Move it to the trash directory of the watched folder.
    Trash,
    /// Delete it.
    Delete,
}

impl PostUpload {
    /// The text that stands for the action in a row.
    pub open spec fn code(self) -> Seq<char> {
        match self {
            PostUpload::Keep => "keep"@,
            PostUpload::Trash => "trash"@,
            PostUpload::Delete => "delete"@,
        }
    }

    /// The action that a text in a row stands for.
    pub open spec fn decoded(s: Seq<char>) -> PostUpload {
        if s == "trash"@ {
            PostUpload::Trash
        } else if s == "delete"@ {
            PostUpload::Delete
        } else {
            PostUpload::Keep
        }
    }

    pub fn as_str(&self) -> (r: &'static str)
        ensures
            r@ == self.code(),
    {
        match self {
            PostUpload::Keep => "keep",
            PostUpload::Trash => "trash",
            PostUpload::Delete => "delete",
        }
    }

    /// An unknown text means that the file is kept.
    pub fn from_str(s: &str) -> (r: Self)
        ensures
            r == PostUpload::decoded(s@),
    {
        if str_eq(s, "trash") {
            PostUpload::Trash
        } else if str_eq(s, "delete") {
            PostUpload::Delete
        } else {
            PostUpload::Keep
        }
    }
}

/// Status of an entry in the upload queue.
#[derive(Debug, Clone, Copy, PartialEq, Eq, Structural)]
pub enum QueueStatus {
    Pending,
    Uploading,
    Failed,
    Completed,
}

impl QueueStatus {
    /// The text that stands for the status in a row.
    pub open spec fn code(self) -> Seq<char> {
        match self {
            QueueStatus::Pending => "pending"@,
            QueueStatus::Uploading => "uploading"@,
            QueueStatus::Failed => "failed"@,
            QueueStatus::Completed => "completed"@,
        }
    }

    /// The status that a text in a row stands for.
    pub open spec fn decoded(s: Seq<char>) -> QueueStatus {
        if s == "uploading"@ {
            QueueStatus::Uploading
        } else if s == "failed"@ {
            QueueStatus::Failed
        } else if s == "completed"@ {
            QueueStatus::Completed
        } else {
            QueueStatus::Pending
        }
    }

    pub fn as_str(&self) -> (r: &'static str)
        ensures
            r@ == self.code(),
    {
        match self {
            QueueStatus::Pending => "pending",
            QueueStatus::Uploading => "uploading",
            QueueStatus::Failed => "failed",
            QueueStatus::Completed => "completed",
        }
    }

    /// An unknown text means pending.
    pub fn from_str(s: &str) -> (r: Self)
        ensures
            r == QueueStatus::decoded(s@),
    {
        if str_eq(s, "uploading") {
            QueueStatus::Uploading
        } else if str_eq(s, "failed") {
            QueueStatus::Failed
        } else if str_eq(s, "completed") {
            QueueStatus::Completed
        } else {
            QueueStatus::Pending
        }
    }
}

/// Every code that is written to a row reads back as what was written.
pub proof fn law_codes_read_back(w: WatchMode, a: AlbumMode, p: PostUpload, q: QueueStatus)
    ensures
        WatchMode::decoded(w.code()) == w,
        AlbumMode::decoded(a.code()) == a,
        PostUpload::decoded(p.code()) == p,
        QueueStatus::decoded(q.code()) == q,
{
    reveal_strlit("native");
    reveal_strlit("poll");
    reveal_strlit("none");
    reveal_strlit("folder");
    reveal_strlit("subfolder");
    reveal_strlit("date");
    reveal_strlit("fixed");
    reveal_strlit("keep");
    reveal_strlit("trash");
    reveal_strlit("delete");
    reveal_strlit("pending");
    reveal_strlit("uploading");
    reveal_strlit("failed");
    reveal_strlit("completed");
    assert("native"@[0] != "poll"@[0]);
    assert("none"@[0] != "folder"@[0]);
    assert("none"@[0] != "subfolder"@[0]);
    assert("none"@[0] != "date"@[0]);
    assert("none"@[0] != "fixed"@[0]);
    assert("subfolder"@[0] != "folder"@[0]);
    assert("date"@[0] != "folder"@[0]);
    assert("date"@[0] != "subfolder"@[0]);
    assert("fixed"@[1] != "folder"@[1]);
    assert("fixed"@[0] != "subfolder"@[0]);
    assert("fixed"@[0] != "date"@[0]);
    assert("keep"@[0] != "trash"@[0]);
    assert("keep"@[0] != "delete"@[0]);
    assert("delete"@[0] != "trash"@[0]);
    assert("pending"@[0] != "uploading"@[0]);
    assert("pending"@[0] != "failed"@[0]);
    assert("pending"@[0] != "completed"@[0]);
    assert("failed"@[0] != "uploading"@[0]);
    assert("completed"@[0] != "uploading"@[0]);
    assert("completed"@[0] != "failed"@[0]);
}

// ── Rows ────────────────────────────────────────────────────────────────────

/// A folder being monitored for new media files.
#[derive(Debug)]
pub struct WatchedFolder {
    pub id: i64,
    /// Absolute filesystem path to the folder.
    pub path: String,
    /// Label shown in the settings window.
    pub label: Option<String>,
    /// Whether watching is active for this folder.
    pub enabled: bool,
    pub watch_mode: WatchMode,
    /// Polling interval, where `watch_mode` is `Poll`.
    pub poll_interval_secs: i64,
    pub album_mode: AlbumMode,
    /// Album name, where `album_mode` is `Fixed`.
    pub album_name: Option<String>,
    /// JSON array of glob patterns to upload.
    pub include_patterns: Option<String>,
    /// JSON array of glob patterns to leave out.
    pub exclude_patterns: Option<String>,
    pub post_upload: PostUpload,
    /// Whether cloud-storage placeholder files are skipped.
    pub ignore_online_files: bool,
    /// Whether the folder was added without the user's doing.
    pub auto_added: bool,
    pub created_at: String,
    pub updated_at: String,
}

/// The contents of a [`WatchedFolder`].
#[verifier::ext_equal]
pub struct FolderRow {
    pub id: i64,
    pub path: Seq<char>,
    pub label: Option<Seq<char>>,
    pub enabled: bool,
    pub watch_mode: WatchMode,
    pub poll_interval_secs: i64,
    pub album_mode: AlbumMode,
    pub album_name: Option<Seq<char>>,
    pub include_patterns: Option<Seq<char>>,
    pub exclude_patterns: Option<Seq<char>>,
    pub post_upload: PostUpload,
    pub ignore_online_files: bool,
    pub auto_added: bool,
    pub created_at: Seq<char>,
    pub updated_at: Seq<char>,
}

impl View for WatchedFolder {
    type V = FolderRow;

    open spec fn view(&self) -> FolderRow {
        FolderRow {
            id: self.id,
            path: self.path@,
            label: text::opt_text(self.label),
            enabled: self.enabled,
            watch_mode: self.watch_mode,
            poll_interval_secs: self.poll_interval_secs,
            album_mode: self.album_mode,
            album_name: text::opt_text(self.album_name),
            include_patterns: text::opt_text(self.include_patterns),
            exclude_patterns: text::opt_text(self.exclude_patterns),
            post_upload: self.post_upload,
            ignore_online_files: self.ignore_online_files,
            auto_added: self.auto_added,
            created_at: self.created_at@,
            updated_at: self.updated_at@,
        }
    }
}

impl Clone for WatchedFolder {
    fn clone(&self) -> (r: Self)
        ensures
            r == *self,
    {
        WatchedFolder {
            id: self.id,
            path: self.path.clone(),
            label: clone_opt(&self.label),
            enabled: self.enabled,
            watch_mode: self.watch_mode,
            poll_interval_secs: self.poll_interval_secs,
            album_mode: self.album_mode,
            album_name: clone_opt(&self.album_name),
            include_patterns: clone_opt(&self.include_patterns),
            exclude_patterns: clone_opt(&self.exclude_patterns),
            post_upload: self.post_upload,
            ignore_online_files: self.ignore_online_files,
            auto_added: self.auto_added,
            created_at: self.created_at.clone(),
            updated_at: self.updated_at.clone(),
        }
    }
}

/// A file that has been uploaded to the server.
#[derive(Debug)]
pub struct UploadedFile {
    pub id: i64,
    pub file_path: String,
    /// SHA-1 hex digest, the checksum that the server keeps.
    pub file_hash: String,
    pub file_size: i64,
    /// Modification time in seconds since the Unix epoch.
    pub file_mtime: i64,
    /// Asset id given by the server.
    pub immich_asset_id: Option<String>,
    /// Asset id given by this device.
    pub device_asset_id: String,
    pub uploaded_at: String,
    pub server_url: String,
}

/// The contents of an [`UploadedFile`].
#[verifier::ext_equal]
pub struct UploadedRow {
    pub id: i64,
    pub file_path: Seq<char>,
    pub file_hash: Seq<char>,
    pub file_size: i64,
    pub file_mtime: i64,
    pub immich_asset_id: Option<Seq<char>>,
    pub device_asset_id: Seq<char>,
    pub uploaded_at: Seq<char>,
    pub server_url: Seq<char>,
}

impl View for UploadedFile {
    type V = UploadedRow;

    open spec fn view(&self) -> UploadedRow {
        UploadedRow {
            id: self.id,
            file_path: self.file_path@,
            file_hash: self.file_hash@,
            file_size: self.file_size,
            file_mtime: self.file_mtime,
            immich_asset_id: text::opt_text(self.immich_asset_id),
            device_asset_id: self.device_asset_id@,
            uploaded_at: self.uploaded_at@,
            server_url: self.server_url@,
        }
    }
}

/// A pending, active or finished entry of the upload queue.
#[derive(Debug)]
pub struct QueueEntry {
    pub id: i64,
    pub file_path: String,
    pub file_hash: Option<String>,
    pub file_size: Option<i64>,
    /// The watched folder that the file came from, if any.
    pub folder_id: Option<i64>,
    pub status: QueueStatus,
    pub retry_count: i32,
    pub error_message: Option<String>,
    pub queued_at: String,
    pub completed_at: Option<String>,
}

/// The contents of a [`QueueEntry`].
#[verifier::ext_equal]
pub struct QueueRow {
    pub id: i64,
    pub file_path: Seq<char>,
    pub file_hash: Option<Seq<char>>,
    pub file_size: Option<i64>,
    pub folder_id: Option<i64>,
    pub status: QueueStatus,
    pub retry_count: i32,
    pub error_message: Option<Seq<char>>,
    pub queued_at: Seq<char>,
    pub completed_at: Option<Seq<char>>,
}

impl View for QueueEntry {
    type V = QueueRow;

    open spec fn view(&self) -> QueueRow {
        QueueRow {
            id: self.id,
            file_path: self.file_path@,
            file_hash: text::opt_text(self.file_hash),
            file_size: self.file_size,
            folder_id: self.folder_id,
            status: self.status,
            retry_count: self.retry_count,
            error_message: text::opt_text(self.error_message),
            queued_at: self.queued_at@,
            completed_at: text::opt_text(self.completed_at),
        }
    }
}

impl Clone for QueueEntry {
    fn clone(&self) -> (r: Self)
        ensures
            r == *self,
    {
        QueueEntry {
            id: self.id,
            file_path: self.file_path.clone(),
            file_hash: clone_opt(&self.file_hash),
            file_size: self.file_size,
            folder_id: self.folder_id,
            status: self.status,
            retry_count: self.retry_count,
            error_message: clone_opt(&self.error_message),
            queued_at: self.queued_at.clone(),
            completed_at: clone_opt(&self.completed_at),
        }
    }
}

/// Counts of queue entries by status.
#[derive(Debug, Clone, Copy, PartialEq, Eq, Structural)]
pub struct QueueStats {
    pub pending: i64,
    pub uploading: i64,
    pub failed: i64,
    pub completed: i64,
}

/// The contents of a list of queue entries.
pub open spec fn queue_rows(v: Seq<QueueEntry>) -> Seq<QueueRow> {
    v.map_values(|e: QueueEntry| e@)
}

/// The contents of a list of watched folders.
pub open spec fn folder_rows(v: Seq<WatchedFolder>) -> Seq<FolderRow> {
    v.map_values(|e: WatchedFolder| e@)
}

/// The contents of a list of uploaded files.
pub open spec fn uploaded_rows(v: Seq<UploadedFile>) -> Seq<UploadedRow> {
    v.map_values(|e: UploadedFile| e@)
}

// ── Tables ──────────────────────────────────────────────────────────────────

/// The tables: watched folders, uploaded files, upload queue, and the
/// key-value `config` table.
pub struct Database {
    config: Vec<(String, String)>,
    folders: Vec<WatchedFolder>,
    uploaded: Vec<UploadedFile>,
    queue: Vec<QueueEntry>,
}

/// The contents of a [`Database`].
#[verifier::ext_equal]
pub struct Tables {
    pub config: Seq<(Seq<char>, Seq<char>)>,
    pub folders: Seq<FolderRow>,
    pub uploaded: Seq<UploadedRow>,
    pub queue: Seq<QueueRow>,
}

impl View for Database {
    type V = Tables;

    closed spec fn view(&self) -> Tables {
        Tables {
            config: self.config@.map_values(|p: (String, String)| (p.0@, p.1@)),
            folders: folder_rows(self.folders@),
            uploaded: uploaded_rows(self.uploaded@),
            queue: queue_rows(self.queue@),
        }
    }
}

/// Whether ids start above zero and grow from row to row.
pub open spec fn ids_ordered(ids: Seq<i64>) -> bool {
    &&& forall|i: int| 0 <= i < ids.len() ==> 0 < #[trigger] ids[i]
    &&& forall|i: int, j: int| 0 <= i < j < ids.len() ==> #[trigger] ids[i] < #[trigger] ids[j]
}

/// The id of the next row of a table that holds `ids`: one more than the
/// largest, and one in an empty table.
pub open spec fn next_id(ids: Seq<i64>) -> int {
    if ids.len() == 0 {
        1
    } else {
        ids.last() + 1
    }
}

impl Tables {
    pub open spec fn folder_ids(self) -> Seq<i64> {
        self.folders.map_values(|r: FolderRow| r.id)
    }

    pub open spec fn uploaded_ids(self) -> Seq<i64> {
        self.uploaded.map_values(|r: UploadedRow| r.id)
    }

    pub open spec fn queue_ids(self) -> Seq<i64> {
        self.queue.map_values(|r: QueueRow| r.id)
    }

    /// Whether a folder with this id is there.
    pub open spec fn has_folder(self, id: i64) -> bool {
        exists|i: int| 0 <= i < self.folders.len() && (#[trigger] self.folders[i]).id == id
    }

    /// Whether a folder with this path is there.
    pub open spec fn has_path(self, path: Seq<char>) -> bool {
        exists|i: int| 0 <= i < self.folders.len() && (#[trigger] self.folders[i]).path == path
    }

    /// Whether some queue entry came from the folder `id`.
    pub open spec fn refers_to_folder(self, id: i64) -> bool {
        exists|i: int|
            0 <= i < self.queue.len() && (#[trigger] self.queue[i]).folder_id == Some(id)
    }

    /// The value of a key of the `config` table.
    pub open spec fn config_value(self, key: Seq<char>) -> Option<Seq<char>> {
        if exists|i: int| 0 <= i < self.config.len() && (#[trigger] self.config[i]).0 == key {
            let i = choose|i: int|
                0 <= i < self.config.len() && (#[trigger] self.config[i]).0 == key;
            Some(self.config[i].1)
        } else {
            None
        }
    }

    /// What every operation keeps: ids are positive and grow from row to row,
    /// no two folders share a path, no two settings share a key, and every
    /// queue entry that names a folder names one that is there.
    pub open spec fn valid(self) -> bool {
        &&& ids_ordered(self.folder_ids())
        &&& ids_ordered(self.uploaded_ids())
        &&& ids_ordered(self.queue_ids())
        &&& forall|i: int, j: int|
            0 <= i < j < self.folders.len() ==> (#[trigger] self.folders[i]).path != (
            #[trigger] self.folders[j]).path
        &&& forall|i: int, j: int|
            0 <= i < j < self.config.len() ==> (#[trigger] self.config[i]).0 != (
            #[trigger] self.config[j]).0
        &&& forall|i: int|
            0 <= i < self.queue.len() ==> ((#[trigger] self.queue[i]).folder_id matches Some(f)
                ==> self.has_folder(f))
    }
}

// ── Queue transitions ───────────────────────────────────────────────────────

/// How many entries of `q` have status `s`.
pub open spec fn status_count(q: Seq<QueueRow>, s: QueueStatus) -> nat
    decreases q.len(),
{
    if q.len() == 0 {
        0
    } else {
        status_count(q.drop_last(), s) + if q.last().status == s { 1nat } else { 0nat }
    }
}

/// A queue entry after a status update: the message is replaced, the finishing
/// time is recorded for a terminal status and cleared otherwise, and the retry
/// count grows on a failure and on a return to pending.
pub open spec fn with_status(
    r: QueueRow,
    status: QueueStatus,
    error: Option<Seq<char>>,
    now: Seq<char>,
) -> QueueRow {
    QueueRow {
        status,
        error_message: error,
        completed_at: if status is Completed || status is Failed {
            Some(now)
        } else {
            None
        },
        retry_count: if (status is Failed || status is Pending) && r.retry_count < i32::MAX {
            (r.retry_count + 1) as i32
        } else {
            r.retry_count
        },
        ..r
    }
}

/// Whether pending entries are claimed from the newest or from the oldest on.
#[derive(Debug, Clone, Copy, PartialEq, Eq, Structural)]
pub enum UploadOrder {
    NewestFirst,
    OldestFirst,
}

impl UploadOrder {
    /// The order that a setting names; anything but `oldest_first` stands for
    /// the newest first.
    pub open spec fn decoded(s: Seq<char>) -> UploadOrder {
        if s == "oldest_first"@ {
            UploadOrder::OldestFirst
        } else {
            UploadOrder::NewestFirst
        }
    }

    /// The order that a setting names.
    pub fn from_str(s: &str) -> (r: UploadOrder)
        ensures
            r == UploadOrder::decoded(s@),
    {
        if str_eq(s, "oldest_first") {
            UploadOrder::OldestFirst
        } else {
            UploadOrder::NewestFirst
        }
    }
}

/// The order in which pending entries are claimed: by the time at which they
/// were queued, and by id where two were queued at the same time.
pub open spec fn claimed_before(order: UploadOrder, a: QueueRow, b: QueueRow) -> bool {
    ||| a.queued_at == b.queued_at && a.id < b.id
    ||| match order {
        UploadOrder::NewestFirst => text::text_before(b.queued_at, a.queued_at),
        UploadOrder::OldestFirst => text::text_before(a.queued_at, b.queued_at),
    }
}

/// Whether `r` are the entries that a worker claims from `q`: pending ones, in
/// claiming order, and none is left out that comes before one of them. There
/// are `limit` of them, or fewer where no more are pending; a negative limit
/// claims all.
pub open spec fn is_claim(
    q: Seq<QueueRow>,
    order: UploadOrder,
    limit: int,
    r: Seq<QueueRow>,
) -> bool {
    &&& forall|i: int| 0 <= i < r.len() ==> q.contains(#[trigger] r[i]) && r[i].status is Pending
    &&& forall|i: int, j: int| 0 <= i < j < r.len() ==> claimed_before(order, #[trigger] r[i], #[trigger] r[j])
    &&& forall|k: int, i: int|
        0 <= k < q.len() && q[k].status is Pending && !r.contains(q[k]) && 0 <= i < r.len()
            ==> claimed_before(order, #[trigger] r[i], #[trigger] q[k])
    &&& limit >= 0 ==> r.len() <= limit
    &&& (limit < 0 || r.len() < limit) ==> forall|k: int|
        0 <= k < q.len() && q[k].status is Pending ==> r.contains(#[trigger] q[k])
}

/// `q` with the claimed entries marked as uploading.
pub open spec fn after_claim(q: Seq<QueueRow>, claimed: Seq<QueueRow>) -> Seq<QueueRow> {
    q.map_values(
        |r: QueueRow|
            if claimed.contains(r) {
                (QueueRow { status: QueueStatus::Uploading, ..r })
            } else {
                r
            },
    )
}

/// `q` with the entry `id` given a new status.
pub open spec fn after_status(
    q: Seq<QueueRow>,
    id: i64,
    status: QueueStatus,
    error: Option<Seq<char>>,
    now: Seq<char>,
) -> Seq<QueueRow> {
    q.map_values(
        |r: QueueRow|
            if r.id == id {
                with_status(r, status, error, now)
            } else {
                r
            },
    )
}

/// Whether a failed entry has retries left.
pub open spec fn may_requeue(r: QueueRow, max_retries: i32) -> bool {
    r.status is Failed && r.retry_count < max_retries
}

/// `q` with the failed entries that have retries left back in the queue.
pub open spec fn after_requeue(q: Seq<QueueRow>, max_retries: i32) -> Seq<QueueRow> {
    q.map_values(
        |r: QueueRow|
            if may_requeue(r, max_retries) {
                (QueueRow {
                    status: QueueStatus::Pending,
                    error_message: None,
                    completed_at: None,
                    ..r
                })
            } else {
                r
            },
    )
}

/// `q` with the entries left in `uploading` back in the queue.
pub open spec fn after_reset(q: Seq<QueueRow>) -> Seq<QueueRow> {
    q.map_values(
        |r: QueueRow|
            if r.status is Uploading {
                (QueueRow { status: QueueStatus::Pending, error_message: None, ..r })
            } else {
                r
            },
    )
}

/// `q` without its completed entries.
pub open spec fn after_purge(q: Seq<QueueRow>) -> Seq<QueueRow> {
    q.filter(|r: QueueRow| !(r.status is Completed))
}

proof fn lemma_status_count_push(q: Seq<QueueRow>, r: QueueRow, s: QueueStatus)
    ensures
        status_count(q.push(r), s) == status_count(q, s) + if r.status == s { 1nat } else { 0nat },
{
    assert(q.push(r).drop_last() =~= q);
}

proof fn lemma_status_count_update(q: Seq<QueueRow>, k: int, r: QueueRow, s: QueueStatus)
    requires
        0 <= k < q.len(),
    ensures
        status_count(q.update(k, r), s) + (if q[k].status == s { 1nat } else { 0nat })
            == status_count(q, s) + (if r.status == s { 1nat } else { 0nat }),
    decreases q.len(),
{
    if k == q.len() - 1 {
        assert(q.update(k, r).drop_last() =~= q.drop_last());
    } else {
        lemma_status_count_update(q.drop_last(), k, r, s);
        assert(q.update(k, r).drop_last() =~= q.drop_last().update(k, r));
    }
}

proof fn lemma_status_count_bound(q: Seq<QueueRow>)
    ensures
        status_count(q, QueueStatus::Pending) + status_count(q, QueueStatus::Uploading)
            + status_count(q, QueueStatus::Failed) + status_count(q, QueueStatus::Completed)
            == q.len(),
    decreases q.len(),
{
    if q.len() > 0 {
        lemma_status_count_bound(q.drop_last());
    }
}

proof fn lemma_ids_exceed_positions(ids: Seq<i64>, i: int)
    requires
        ids_ordered(ids),
        0 <= i < ids.len(),
    ensures
        ids[i] > i,
    decreases i,
{
    if i > 0 {
        lemma_ids_exceed_positions(ids, i - 1);
        assert(ids[i - 1] < ids[i]);
    }
}

proof fn lemma_ids_push(ids: Seq<i64>, id: i64)
    requires
        ids_ordered(ids),
        id == next_id(ids),
    ensures
        ids_ordered(ids.push(id)),
{
    assert forall|i: int| 0 <= i < ids.push(id).len() implies 0 < #[trigger] ids.push(id)[i] by {
        if ids.len() > 0 {
            assert(0 < ids[ids.len() - 1]);
        }
        if i < ids.len() {
            assert(0 < ids[i]);
        }
    }
    assert forall|i: int, j: int| 0 <= i < j < ids.push(id).len() implies #[trigger] ids.push(id)[i]
        < #[trigger] ids.push(id)[j] by {
        if j < ids.len() {
            assert(ids[i] < ids[j]);
        } else if i < ids.len() - 1 {
            assert(ids[i] < ids[ids.len() - 1]);
        }
    }
}

impl Database {
    /// The invariant of the tables, see [`Tables::valid`].
    pub open spec fn wf(&self) -> bool {
        self@.valid()
    }

    // ── Queue ───────────────────────────────────────────────────────────────

    /// The position of the pending entry that is claimed first.
    fn first_pending(&self, order: UploadOrder) -> (r: Option<usize>)
        requires
            self.wf(),
        ensures
            match r {
                Some(k) => {
                    &&& k < self@.queue.len()
                    &&& self@.queue[k as int].status is Pending
                    &&& forall|j: int|
                        0 <= j < self@.queue.len() && self@.queue[j].status is Pending && j != k
                            ==> claimed_before(order, self@.queue[k as int], #[trigger] self@.queue[j])
                },
                None => forall|j: int|
                    0 <= j < self@.queue.len() ==> !((#[trigger] self@.queue[j]).status is Pending),
            },
    {
        let mut best: Option<usize> = None;
        let mut i: usize = 0;
        let ghost q = self@.queue;
        while i < self.queue.len()
            invariant
                q == self@.queue,
                ids_ordered(self@.queue_ids()),
                q.len() == self.queue@.len(),
                i <= q.len(),
                match best {
                    Some(k) => {
                        &&& k < i
                        &&& q[k as int].status is Pending
                        &&& forall|j: int|
                            0 <= j < i && q[j].status is Pending && j != k ==> claimed_before(
                                order,
                                q[k as int],
                                #[trigger] q[j],
                            )
                    },
                    None => forall|j: int| 0 <= j < i ==> !((#[trigger] q[j]).status is Pending),
                },
            decreases q.len() - i,
        {
            let e = &self.queue[i];
            assert(q[i as int] == e@);
            if e.status == QueueStatus::Pending {
                match best {
                    None => {
                        best = Some(i);
                    },
                    Some(k) => {
                        let b = &self.queue[k];
                        assert(q[k as int] == b@);
                        let sooner: bool = match order {
                            UploadOrder::NewestFirst => text_less(&b.queued_at, &e.queued_at),
                            UploadOrder::OldestFirst => text_less(&e.queued_at, &b.queued_at),
                        };
                        proof {
                            text::lemma_text_before_total(b@.queued_at, e@.queued_at);
                            assert(self@.queue_ids()[k as int] < self@.queue_ids()[i as int]);
                            assert forall|j: int|
                                0 <= j < i && q[j].status is Pending && sooner implies claimed_before(
                                order,
                                q[i as int],
                                #[trigger] q[j],
                            ) by {
                                if j != k {
                                    if q[k as int].queued_at != q[j].queued_at {
                                        if order is NewestFirst {
                                            text::lemma_text_before_transitive(
                                                q[j].queued_at,
                                                q[k as int].queued_at,
                                                q[i as int].queued_at,
                                            );
                                        } else {
                                            text::lemma_text_before_transitive(
                                                q[i as int].queued_at,
                                                q[k as int].queued_at,
                                                q[j].queued_at,
                                            );
                                        }
                                    }
                                }
                            }
                        }
                        if sooner {
                            best = Some(i);
                        }
                    },
                }
            }
            i += 1;
        }
        best
    }

    /// Claim up to `limit` pending entries, the newest first; see
    /// [`Database::dequeue_pending_in`].
    pub fn dequeue_pending(&mut self, limit: i64) -> (r: Vec<QueueEntry>)
        requires
            old(self).wf(),
        ensures
            final(self).wf(),
            is_claim(
                old(self)@.queue,
                UploadOrder::NewestFirst,
                limit as int,
                queue_rows(r@),
            ),
            final(self)@ == (Tables {
                queue: after_claim(old(self)@.queue, queue_rows(r@)),
                ..old(self)@
            }),
    {
        self.dequeue_pending_in(UploadOrder::NewestFirst, limit)
    }

    /// Claim up to `limit` pending entries in this order: mark them `uploading`
    /// and return them as they were. No two calls return the same entry unless
    /// it went back to pending in between.
    pub fn dequeue_pending_in(&mut self, order: UploadOrder, limit: i64) -> (r: Vec<QueueEntry>)
        requires
            old(self).wf(),
        ensures
            final(self).wf(),
            is_claim(old(self)@.queue, order, limit as int, queue_rows(r@)),
            final(self)@ == (Tables {
                queue: after_claim(old(self)@.queue, queue_rows(r@)),
                ..old(self)@
            }),
    {
        let mut claimed: Vec<QueueEntry> = Vec::new();
        let ghost q0 = self@.queue;
        let ghost mut c: Seq<QueueRow> = Seq::empty();
        proof {
            assert(queue_rows(claimed@) =~= c);
            assert(after_claim(q0, c) =~= q0);
        }
        loop
            invariant_except_break
                limit < 0 || c.len() <= limit,
            invariant
                old(self).wf(),
                self@ == (Tables { queue: after_claim(q0, c), ..old(self)@ }),
                q0 == old(self)@.queue,
                c == queue_rows(claimed@),
                forall|i: int|
                    0 <= i < c.len() ==> q0.contains(#[trigger] c[i]) && c[i].status is Pending,
                forall|i: int, j: int|
                    0 <= i < j < c.len() ==> claimed_before(order, #[trigger] c[i], #[trigger] c[j]),
                forall|k: int, i: int|
                    0 <= k < q0.len() && q0[k].status is Pending && !c.contains(q0[k]) && 0 <= i
                        < c.len() ==> claimed_before(order, #[trigger] c[i], #[trigger] q0[k]),
            ensures
                is_claim(q0, order, limit as int, c),
            decreases status_count(self@.queue, QueueStatus::Pending),
        {
            if limit >= 0 && claimed.len() as u64 >= limit as u64 {
                assert(c.len() == claimed@.len());
                break;
            }
            proof {
                lemma_after_claim_valid(old(self)@, c);
            }
            match self.first_pending(order) {
                None => {
                    proof {
                        assert forall|k: int| 0 <= k < q0.len() && q0[k].status is Pending implies
                            c.contains(#[trigger] q0[k]) by {
                            assert(!(self@.queue[k].status is Pending));
                        }
                    }
                    break;
                },
                Some(k) => {
                    let e: QueueEntry = self.queue[k].clone();
                    let mut u: QueueEntry = self.queue[k].clone();
                    u.status = QueueStatus::Uploading;
                    let ghost q1 = self@.queue;
                    let ghost c1 = c.push(e@);
                    proof {
                        assert(q1[k as int] == e@);
                        assert(q1[k as int].status is Pending);
                        assert(!c.contains(q0[k as int]));
                        assert(q0[k as int] == e@);
                        lemma_status_count_update(q1, k as int, u@, QueueStatus::Pending);
                    }
                    self.queue.set(k, u);
                    claimed.push(e);
                    proof {
                        assert(self@.queue =~= q1.update(k as int, u@));
                        lemma_claim_step(old(self)@, c, k as int);
                        assert(self@.queue =~= after_claim(q0, c1));
                        assert(queue_rows(claimed@) =~= c1);
                        assert forall|i: int|
                            0 <= i < c1.len() implies q0.contains(#[trigger] c1[i])
                                && c1[i].status is Pending by {
                            if i == c.len() {
                                assert(q0[k as int] == c1[i]);
                            } else {
                                assert(c1[i] == c[i]);
                            }
                        }
                        assert forall|i: int, j: int| 0 <= i < j < c1.len() implies claimed_before(
                            order,
                            #[trigger] c1[i],
                            #[trigger] c1[j],
                        ) by {
                            assert(c1[i] == c[i]);
                            if j == c.len() {
                                assert(claimed_before(order, c[i], q0[k as int]));
                            } else {
                                assert(c1[j] == c[j]);
                            }
                        }
                        assert forall|n: int, i: int|
                            0 <= n < q0.len() && q0[n].status is Pending && !c1.contains(q0[n]) && 0
                                <= i < c1.len() implies claimed_before(
                            order,
                            #[trigger] c1[i],
                            #[trigger] q0[n],
                        ) by {
                            assert(!c.contains(q0[n])) by {
                                if c.contains(q0[n]) {
                                    let m = choose|m: int| 0 <= m < c.len() && c[m] == q0[n];
                                    assert(c1[m] == q0[n]);
                                }
                            }
                            if i == c.len() {
                                assert(c1[i] == q0[k as int]);
                                assert(n != k);
                                assert(q1[n] == q0[n]);
                                assert(claimed_before(order, q1[k as int], q1[n]));
                            } else {
                                assert(c1[i] == c[i]);
                            }
                        }
                        c = c1;
                    }
                },
            }
        }
        proof {
            lemma_after_claim_valid(old(self)@, c);
        }
        claimed
    }
}

/// Claiming entries leaves ids and folder references alone.
proof fn lemma_after_claim_valid(t: Tables, c: Seq<QueueRow>)
    requires
        t.valid(),
    ensures
        (Tables { queue: after_claim(t.queue, c), ..t }).valid(),
{
    let u = Tables { queue: after_claim(t.queue, c), ..t };
    assert(u.queue_ids() =~= t.queue_ids());
    assert(u.folder_ids() =~= t.folder_ids());
    assert(u.uploaded_ids() =~= t.uploaded_ids());
    assert forall|i: int| 0 <= i < u.queue.len() implies ((#[trigger] u.queue[i]).folder_id matches Some(
        f,
    ) ==> u.has_folder(f)) by {
        assert(u.queue[i].folder_id == t.queue[i].folder_id);
        if let Some(f) = t.queue[i].folder_id {
            assert(t.has_folder(f));
            let j = choose|j: int| 0 <= j < t.folders.len() && (#[trigger] t.folders[j]).id == f;
            assert(u.folders[j].id == f);
        }
    }
}

/// Claiming one more entry changes the row of that entry only.
proof fn lemma_claim_step(t: Tables, c: Seq<QueueRow>, k: int)
    requires
        t.valid(),
        0 <= k < t.queue.len(),
        !c.contains(t.queue[k]),
    ensures
        after_claim(t.queue, c.push(t.queue[k])) == after_claim(t.queue, c).update(
            k,
            QueueRow { status: QueueStatus::Uploading, ..t.queue[k] },
        ),
{
    let q = t.queue;
    let d = c.push(q[k]);
    assert forall|i: int| 0 <= i < q.len() implies #[trigger] after_claim(q, d)[i] == after_claim(
        q,
        c,
    ).update(k, QueueRow { status: QueueStatus::Uploading, ..q[k] })[i] by {
        if i == k {
            assert(d[c.len() as int] == q[k]);
            assert(d.contains(q[k]));
        } else {
            assert(q[i] != q[k]) by {
                assert(t.queue_ids()[i] == q[i].id);
                assert(t.queue_ids()[k] == q[k].id);
                if i < k {
                    assert(t.queue_ids()[i] < t.queue_ids()[k]);
                } else {
                    assert(t.queue_ids()[k] < t.queue_ids()[i]);
                }
            }
            if c.contains(q[i]) {
                let m = choose|m: int| 0 <= m < c.len() && c[m] == q[i];
                assert(d[m] == q[i]);
            }
            if d.contains(q[i]) {
                let m = choose|m: int| 0 <= m < d.len() && d[m] == q[i];
                assert(m < c.len());
                assert(c[m] == q[i]);
            }
        }
    }
    assert(after_claim(q, d) =~= after_claim(q, c).update(
        k,
        QueueRow { status: QueueStatus::Uploading, ..q[k] },
    ));
}

/// Whether a new row cannot be given an id.
pub open spec fn ids_exhausted(ids: Seq<i64>) -> bool {
    next_id(ids) > i64::MAX
}

/// The row that a newly queued file gets.
pub open spec fn queued_row(
    id: i64,
    file_path: Seq<char>,
    file_hash: Option<Seq<char>>,
    file_size: Option<i64>,
    folder_id: Option<i64>,
    now: Seq<char>,
) -> QueueRow {
    QueueRow {
        id,
        file_path,
        file_hash,
        file_size,
        folder_id,
        status: QueueStatus::Pending,
        retry_count: 0,
        error_message: None,
        queued_at: now,
        completed_at: None,
    }
}

/// What queueing a file from a folder answers: the id of the new entry, or why
/// there is none.
pub open spec fn enqueue_result(t: Tables, folder_id: Option<i64>) -> Result<i64, DbError> {
    if folder_id is Some && !t.has_folder(folder_id->0) {
        Err(DbError::ForeignKey)
    } else if ids_exhausted(t.queue_ids()) {
        Err(DbError::IdsExhausted)
    } else {
        Ok(next_id(t.queue_ids()) as i64)
    }
}

/// The tables after a file was queued at `now`.
pub open spec fn after_enqueue(
    t: Tables,
    file_path: Seq<char>,
    file_hash: Option<Seq<char>>,
    file_size: Option<i64>,
    folder_id: Option<i64>,
    now: Seq<char>,
) -> Tables {
    match enqueue_result(t, folder_id) {
        Ok(id) => Tables {
            queue: t.queue.push(queued_row(id, file_path, file_hash, file_size, folder_id, now)),
            ..t
        },
        Err(_) => t,
    }
}

/// Replacing queue rows by rows with the same id and folder keeps the tables
/// valid.
proof fn lemma_queue_replaced_valid(t: Tables, q: Seq<QueueRow>)
    requires
        t.valid(),
        q.len() == t.queue.len(),
        forall|i: int|
            0 <= i < q.len() ==> (#[trigger] q[i]).id == t.queue[i].id && q[i].folder_id
                == t.queue[i].folder_id,
    ensures
        (Tables { queue: q, ..t }).valid(),
{
    let u = Tables { queue: q, ..t };
    assert(u.queue_ids() =~= t.queue_ids());
    assert(u.folder_ids() =~= t.folder_ids());
    assert(u.uploaded_ids() =~= t.uploaded_ids());
    assert forall|i: int| 0 <= i < u.queue.len() implies ((#[trigger] u.queue[i]).folder_id matches Some(
        f,
    ) ==> u.has_folder(f)) by {
        assert(u.queue[i].folder_id == t.queue[i].folder_id);
        if let Some(f) = t.queue[i].folder_id {
            assert(t.has_folder(f));
            let j = choose|j: int| 0 <= j < t.folders.len() && (#[trigger] t.folders[j]).id == f;
            assert(u.folders[j].id == f);
        }
    }
}

/// A row-by-row rewrite of `a` into `b`, one row further.
proof fn lemma_rewrite_step<A>(a: Seq<A>, b: Seq<A>, i: int)
    requires
        a.len() == b.len(),
        0 <= i < a.len(),
    ensures
        (b.take(i) + a.skip(i)).update(i, b[i]) =~= b.take(i + 1) + a.skip(i + 1),
        (b.take(i) + a.skip(i))[i] == a[i],
{
}

/// A new queue entry keeps the tables valid.
proof fn lemma_enqueue_valid(t: Tables, r: QueueRow)
    requires
        t.valid(),
        r.id == next_id(t.queue_ids()),
        r.folder_id matches Some(f) ==> t.has_folder(f),
    ensures
        (Tables { queue: t.queue.push(r), ..t }).valid(),
{
    let u = Tables { queue: t.queue.push(r), ..t };
    assert(u.queue_ids() =~= t.queue_ids().push(r.id));
    lemma_ids_push(t.queue_ids(), r.id);
    assert(u.folder_ids() =~= t.folder_ids());
    assert(u.uploaded_ids() =~= t.uploaded_ids());
    assert forall|i: int| 0 <= i < u.queue.len() implies ((#[trigger] u.queue[i]).folder_id matches Some(
        f,
    ) ==> u.has_folder(f)) by {
        if let Some(f) = u.queue[i].folder_id {
            if i < t.queue.len() {
                assert(u.queue[i] == t.queue[i]);
            }
            assert(t.has_folder(f));
            let j = choose|j: int| 0 <= j < t.folders.len() && (#[trigger] t.folders[j]).id == f;
            assert(u.folders[j].id == f);
        }
    }
}

impl Database {
    /// Whether a folder with this id is there.
    fn folder_exists(&self, id: i64) -> (r: bool)
        ensures
            r == self@.has_folder(id),
    {
        let mut i: usize = 0;
        while i < self.folders.len()
            invariant
                i <= self.folders@.len(),
                forall|j: int| 0 <= j < i ==> (#[trigger] self@.folders[j]).id != id,
            decreases self.folders@.len() - i,
        {
            assert(self@.folders[i as int] == self.folders@[i as int]@);
            if self.folders[i].id == id {
                return true;
            }
            i += 1;
        }
        false
    }

    /// Add a file to the queue at time `now`, with status `pending`. Returns
    /// the id of the new entry.
    pub fn enqueue_at(
        &mut self,
        file_path: &str,
        file_hash: Option<&str>,
        file_size: Option<i64>,
        folder_id: Option<i64>,
        now: &str,
    ) -> (r: Result<i64, DbError>)
        requires
            old(self).wf(),
        ensures
            final(self).wf(),
            r == enqueue_result(old(self)@, folder_id),
            final(self)@ == after_enqueue(
                old(self)@,
                file_path@,
                file_hash.deep_view(),
                file_size,
                folder_id,
                now@,
            ),
    {
        if let Some(f) = folder_id {
            if !self.folder_exists(f) {
                return Err(DbError::ForeignKey);
            }
        }
        let n: usize = self.queue.len();
        assert(self@.queue_ids().len() == n);
        let mut id: i64 = 1;
        if n > 0 {
            let last: i64 = self.queue[n - 1].id;
            assert(self@.queue_ids()[n - 1] == last);
            if last == i64::MAX {
                return Err(DbError::IdsExhausted);
            }
            id = last + 1;
        }
        let e: QueueEntry = QueueEntry {
            id,
            file_path: file_path.to_owned(),
            file_hash: owned_opt(file_hash),
            file_size,
            folder_id,
            status: QueueStatus::Pending,
            retry_count: 0,
            error_message: None,
            queued_at: now.to_owned(),
            completed_at: None,
        };
        let ghost row = e@;
        self.queue.push(e);
        proof {
            assert(self@.queue =~= old(self)@.queue.push(row));
            lemma_enqueue_valid(old(self)@, row);
        }
        Ok(id)
    }

    /// Add a file to the queue, with status `pending`. Returns the id of the
    /// new entry.
    pub fn enqueue(
        &mut self,
        file_path: &str,
        file_hash: Option<&str>,
        file_size: Option<i64>,
        folder_id: Option<i64>,
    ) -> (r: Result<i64, DbError>)
        requires
            old(self).wf(),
        ensures
            final(self).wf(),
            r == enqueue_result(old(self)@, folder_id),
            exists|now: Seq<char>|
                clock::names_instant(now) && final(self)@ == #[trigger] after_enqueue(
                    old(self)@,
                    file_path@,
                    file_hash.deep_view(),
                    file_size,
                    folder_id,
                    now,
                ),
    {
        let now: String = now_text();
        self.enqueue_at(file_path, file_hash, file_size, folder_id, &now)
    }

    /// Give the entry `id` a new status at time `now`; an unknown id changes
    /// nothing.
    pub fn update_queue_status_at(
        &mut self,
        id: i64,
        status: &QueueStatus,
        error_msg: Option<&str>,
        now: &str,
    )
        requires
            old(self).wf(),
        ensures
            final(self).wf(),
            final(self)@ == (Tables {
                queue: after_status(
                    old(self)@.queue,
                    id,
                    *status,
                    error_msg.deep_view(),
                    now@,
                ),
                ..old(self)@
            }),
    {
        let ghost q0 = self@.queue;
        let ghost q2 = after_status(q0, id, *status, error_msg.deep_view(), now@);
        let mut i: usize = 0;
        while i < self.queue.len()
            invariant
                i <= self.queue@.len(),
                self.queue@.len() == q0.len(),
                q0 == old(self)@.queue,
                q2 == after_status(q0, id, *status, error_msg.deep_view(), now@),
                self@ == (Tables { queue: q2.take(i as int) + q0.skip(i as int), ..old(self)@ }),
            decreases self.queue@.len() - i,
        {
            assert(self@.queue[i as int] == self.queue@[i as int]@);
            assert(self@.queue[i as int] == q0[i as int]);
            if self.queue[i].id == id {
                let mut e: QueueEntry = self.queue[i].clone();
                e.status = *status;
                e.error_message = owned_opt(error_msg);
                e.completed_at = match status {
                    QueueStatus::Completed | QueueStatus::Failed => Some(now.to_owned()),
                    QueueStatus::Pending | QueueStatus::Uploading => None,
                };
                match status {
                    QueueStatus::Failed | QueueStatus::Pending => {
                        if e.retry_count < i32::MAX {
                            e.retry_count = e.retry_count + 1;
                        }
                    },
                    QueueStatus::Uploading | QueueStatus::Completed => {},
                }
                assert(e@ =~= q2[i as int]);
                self.queue.set(i, e);
            }
            proof {
                lemma_rewrite_step(q0, q2, i as int);
                assert(self@.queue =~= (q2.take(i as int) + q0.skip(i as int)).update(
                    i as int,
                    q2[i as int],
                ));
            }
            i += 1;
        }
        proof {
            assert(q2.take(q0.len() as int) + q0.skip(q0.len() as int) =~= q2);
            lemma_queue_replaced_valid(old(self)@, q2);
        }
    }

    /// Give the entry `id` a new status; an unknown id changes nothing.
    ///
    /// `error_msg` replaces the message of the entry. The time is recorded when
    /// the new status is `Completed` or `Failed`.
    pub fn update_queue_status(&mut self, id: i64, status: &QueueStatus, error_msg: Option<&str>)
        requires
            old(self).wf(),
        ensures
            final(self).wf(),
            exists|now: Seq<char>|
                clock::names_instant(now) && final(self)@ == (Tables {
                    queue: #[trigger] after_status(
                        old(self)@.queue,
                        id,
                        *status,
                        error_msg.deep_view(),
                        now,
                    ),
                    ..old(self)@
                }),
    {
        let now: String = now_text();
        self.update_queue_status_at(id, status, error_msg, &now)
    }

    /// Counts of entries by status.
    pub fn get_queue_stats(&self) -> (r: QueueStats)
        requires
            self.wf(),
        ensures
            r.pending == status_count(self@.queue, QueueStatus::Pending),
            r.uploading == status_count(self@.queue, QueueStatus::Uploading),
            r.failed == status_count(self@.queue, QueueStatus::Failed),
            r.completed == status_count(self@.queue, QueueStatus::Completed),
            r.pending + r.uploading + r.failed + r.completed == self@.queue.len(),
            self@.queue.len() <= i64::MAX,
    {
        let mut r: QueueStats = QueueStats { pending: 0, uploading: 0, failed: 0, completed: 0 };
        let ghost q = self@.queue;
        proof {
            assert(q.take(0) =~= Seq::<QueueRow>::empty());
            if q.len() > 0 {
                lemma_ids_exceed_positions(self@.queue_ids(), q.len() - 1);
            }
        }
        let mut i: usize = 0;
        while i < self.queue.len()
            invariant
                q == self@.queue,
                q.len() == self.queue@.len(),
                q.len() <= i64::MAX,
                i <= q.len(),
                r.pending == status_count(q.take(i as int), QueueStatus::Pending),
                r.uploading == status_count(q.take(i as int), QueueStatus::Uploading),
                r.failed == status_count(q.take(i as int), QueueStatus::Failed),
                r.completed == status_count(q.take(i as int), QueueStatus::Completed),
            decreases q.len() - i,
        {
            proof {
                assert(q[i as int] == self.queue@[i as int]@);
                assert(q.take(i + 1) =~= q.take(i as int).push(q[i as int]));
                lemma_status_count_push(q.take(i as int), q[i as int], QueueStatus::Pending);
                lemma_status_count_push(q.take(i as int), q[i as int], QueueStatus::Uploading);
                lemma_status_count_push(q.take(i as int), q[i as int], QueueStatus::Failed);
                lemma_status_count_push(q.take(i as int), q[i as int], QueueStatus::Completed);
                lemma_status_count_bound(q.take(i as int));
            }
            match self.queue[i].status {
                QueueStatus::Pending => {
                    r.pending = r.pending + 1;
                },
                QueueStatus::Uploading => {
                    r.uploading = r.uploading + 1;
                },
                QueueStatus::Failed => {
                    r.failed = r.failed + 1;
                },
                QueueStatus::Completed => {
                    r.completed = r.completed + 1;
                },
            }
            i += 1;
        }
        proof {
            assert(q.take(q.len() as int) =~= q);
            lemma_status_count_bound(q);
        }
        r
    }

    /// Put failed entries with fewer than `max_retries` retries back in the
    /// queue, without their message. Returns how many there were.
    pub fn requeue_failed(&mut self, max_retries: i32) -> (r: usize)
        requires
            old(self).wf(),
        ensures
            final(self).wf(),
            r == old(self)@.queue.filter(|e: QueueRow| may_requeue(e, max_retries)).len(),
            final(self)@ == (Tables {
                queue: after_requeue(old(self)@.queue, max_retries),
                ..old(self)@
            }),
    {
        let ghost q0 = self@.queue;
        let ghost q2 = after_requeue(q0, max_retries);
        let ghost p = |e: QueueRow| may_requeue(e, max_retries);
        let mut count: usize = 0;
        let mut i: usize = 0;
        assert(q0.take(0).filter(p) =~= Seq::<QueueRow>::empty()) by {
            reveal(Seq::filter);
        }
        while i < self.queue.len()
            invariant
                i <= self.queue@.len(),
                self.queue@.len() == q0.len(),
                q0 == old(self)@.queue,
                q2 == after_requeue(q0, max_retries),
                p == (|e: QueueRow| may_requeue(e, max_retries)),
                count == q0.take(i as int).filter(p).len(),
                count <= i,
                self@ == (Tables { queue: q2.take(i as int) + q0.skip(i as int), ..old(self)@ }),
            decreases self.queue@.len() - i,
        {
            proof {
                assert(self@.queue[i as int] == self.queue@[i as int]@);
                assert(self@.queue[i as int] == q0[i as int]);
                assert(q0.take(i + 1) =~= q0.take(i as int).push(q0[i as int]));
                q0.take(i as int).lemma_filter_push(q0[i as int], p);
            }
            if self.queue[i].status == QueueStatus::Failed && self.queue[i].retry_count
                < max_retries {
                let mut e: QueueEntry = self.queue[i].clone();
                e.status = QueueStatus::Pending;
                e.error_message = None;
                e.completed_at = None;
                assert(e@ =~= q2[i as int]);
                self.queue.set(i, e);
                count += 1;
            }
            proof {
                lemma_rewrite_step(q0, q2, i as int);
                assert(self@.queue =~= (q2.take(i as int) + q0.skip(i as int)).update(
                    i as int,
                    q2[i as int],
                ));
            }
            i += 1;
        }
        proof {
            assert(q0.take(q0.len() as int) =~= q0);
            assert(q2.take(q0.len() as int) + q0.skip(q0.len() as int) =~= q2);
            lemma_queue_replaced_valid(old(self)@, q2);
        }
        count
    }

    /// Put entries left in `uploading` back in the queue. After a crash this
    /// recovers the entries whose upload was cut short. Returns how many there
    /// were.
    pub fn reset_stale_uploading(&mut self) -> (r: usize)
        requires
            old(self).wf(),
        ensures
            final(self).wf(),
            r == status_count(old(self)@.queue, QueueStatus::Uploading),
            final(self)@ == (Tables { queue: after_reset(old(self)@.queue), ..old(self)@ }),
    {
        let ghost q0 = self@.queue;
        let ghost q2 = after_reset(q0);
        let mut count: usize = 0;
        let mut i: usize = 0;
        assert(q0.take(0) =~= Seq::<QueueRow>::empty());
        while i < self.queue.len()
            invariant
                i <= self.queue@.len(),
                self.queue@.len() == q0.len(),
                q0 == old(self)@.queue,
                q2 == after_reset(q0),
                count == status_count(q0.take(i as int), QueueStatus::Uploading),
                count <= i,
                self@ == (Tables { queue: q2.take(i as int) + q0.skip(i as int), ..old(self)@ }),
            decreases self.queue@.len() - i,
        {
            proof {
                assert(self@.queue[i as int] == self.queue@[i as int]@);
                assert(self@.queue[i as int] == q0[i as int]);
                assert(q0.take(i + 1) =~= q0.take(i as int).push(q0[i as int]));
                lemma_status_count_push(q0.take(i as int), q0[i as int], QueueStatus::Uploading);
            }
            if self.queue[i].status == QueueStatus::Uploading {
                let mut e: QueueEntry = self.queue[i].clone();
                e.status = QueueStatus::Pending;
                e.error_message = None;
                assert(e@ =~= q2[i as int]);
                self.queue.set(i, e);
                count += 1;
            }
            proof {
                lemma_rewrite_step(q0, q2, i as int);
                assert(self@.queue =~= (q2.take(i as int) + q0.skip(i as int)).update(
                    i as int,
                    q2[i as int],
                ));
            }
            i += 1;
        }
        proof {
            assert(q0.take(q0.len() as int) =~= q0);
            assert(q2.take(q0.len() as int) + q0.skip(q0.len() as int) =~= q2);
            lemma_queue_replaced_valid(old(self)@, q2);
        }
        count
    }
}

/// Dropping queue rows keeps the tables valid.
proof fn lemma_queue_thinned_valid(t: Tables, keep: spec_fn(QueueRow) -> bool)
    requires
        t.valid(),
    ensures
        (Tables { queue: t.queue.filter(keep), ..t }).valid(),
    decreases t.queue.len(),
{
    reveal(Seq::filter);
    let u = Tables { queue: t.queue.filter(keep), ..t };
    assert(u.folder_ids() =~= t.folder_ids());
    assert(u.uploaded_ids() =~= t.uploaded_ids());
    if t.queue.len() == 0 {
        assert(u.queue_ids() =~= t.queue_ids());
    } else {
        let d = Tables { queue: t.queue.drop_last(), ..t };
        let last = t.queue.last();
        assert(d.queue_ids() =~= t.queue_ids().drop_last());
        assert(d.folder_ids() =~= t.folder_ids());
        assert(d.uploaded_ids() =~= t.uploaded_ids());
        assert forall|i: int| 0 <= i < d.queue.len() implies ((#[trigger] d.queue[i]).folder_id matches Some(
            f,
        ) ==> d.has_folder(f)) by {
            assert(d.queue[i] == t.queue[i]);
            if let Some(f) = t.queue[i].folder_id {
                assert(t.has_folder(f));
                let j = choose|j: int|
                    0 <= j < t.folders.len() && (#[trigger] t.folders[j]).id == f;
                assert(d.folders[j].id == f);
            }
        }
        assert(ids_ordered(d.queue_ids())) by {
            assert forall|i: int| 0 <= i < d.queue_ids().len() implies 0 < #[trigger] d.queue_ids()[i] by {
                assert(d.queue_ids()[i] == t.queue_ids()[i]);
            }
            assert forall|i: int, j: int| 0 <= i < j < d.queue_ids().len() implies #[trigger] d.queue_ids()[i]
                < #[trigger] d.queue_ids()[j] by {
                assert(d.queue_ids()[i] == t.queue_ids()[i]);
                assert(d.queue_ids()[j] == t.queue_ids()[j]);
            }
        }
        lemma_queue_thinned_valid(d, keep);
        let fd = d.queue.filter(keep);
        let du = Tables { queue: fd, ..d };
        if keep(last) {
            assert(u.queue =~= fd.push(last));
            assert(u.queue_ids() =~= du.queue_ids().push(last.id));
            assert forall|i: int, j: int| 0 <= i < j < u.queue_ids().len() implies #[trigger] u.queue_ids()[i]
                < #[trigger] u.queue_ids()[j] by {
                if j == fd.len() {
                    assert(fd[i] == u.queue[i]);
                    assert(fd.contains(fd[i]));
                    d.queue.lemma_filter_contains_rev(keep, fd[i]);
                    let m = choose|m: int| 0 <= m < d.queue.len() && d.queue[m] == fd[i];
                    assert(t.queue_ids()[m] == fd[i].id);
                    assert(t.queue_ids()[m] < t.queue_ids()[t.queue.len() - 1]);
                } else {
                    assert(u.queue_ids()[i] == du.queue_ids()[i]);
                    assert(u.queue_ids()[j] == du.queue_ids()[j]);
                }
            }
            assert forall|i: int| 0 <= i < u.queue_ids().len() implies 0 < #[trigger] u.queue_ids()[i] by {
                if i == fd.len() {
                    assert(t.queue_ids()[t.queue.len() - 1] == last.id);
                } else {
                    assert(u.queue_ids()[i] == du.queue_ids()[i]);
                }
            }
            assert forall|i: int| 0 <= i < u.queue.len() implies ((#[trigger] u.queue[i]).folder_id matches Some(
                f,
            ) ==> u.has_folder(f)) by {
                if let Some(f) = u.queue[i].folder_id {
                    if i < fd.len() {
                        assert(u.queue[i] == du.queue[i]);
                        assert(du.has_folder(f));
                    } else {
                        assert(t.queue[t.queue.len() - 1] == last);
                        assert(t.has_folder(f));
                    }
                    let j = choose|j: int|
                        0 <= j < t.folders.len() && (#[trigger] t.folders[j]).id == f;
                    assert(u.folders[j].id == f);
                }
            }
        } else {
            assert(u.queue =~= fd);
            assert(u =~= du);
        }
    }
}

impl Database {
    /// Delete all completed entries. Returns how many there were.
    pub fn purge_completed(&mut self) -> (r: usize)
        requires
            old(self).wf(),
        ensures
            final(self).wf(),
            r == status_count(old(self)@.queue, QueueStatus::Completed),
            final(self)@ == (Tables { queue: after_purge(old(self)@.queue), ..old(self)@ }),
    {
        let ghost q0 = self@.queue;
        let ghost keep = |r: QueueRow| !(r.status is Completed);
        let mut kept: Vec<QueueEntry> = Vec::new();
        let mut count: usize = 0;
        let mut i: usize = 0;
        proof {
            reveal(Seq::filter);
            assert(q0.take(0) =~= Seq::<QueueRow>::empty());
            assert(queue_rows(kept@) =~= q0.take(0).filter(keep));
        }
        while i < self.queue.len()
            invariant
                i <= self.queue@.len(),
                self@ == old(self)@,
                q0 == queue_rows(self.queue@),
                keep == (|r: QueueRow| !(r.status is Completed)),
                queue_rows(kept@) == q0.take(i as int).filter(keep),
                count == status_count(q0.take(i as int), QueueStatus::Completed),
                count <= i,
            decreases self.queue@.len() - i,
        {
            proof {
                assert(q0[i as int] == self.queue@[i as int]@);
                assert(q0.take(i + 1) =~= q0.take(i as int).push(q0[i as int]));
                q0.take(i as int).lemma_filter_push(q0[i as int], keep);
                lemma_status_count_push(q0.take(i as int), q0[i as int], QueueStatus::Completed);
            }
            if self.queue[i].status == QueueStatus::Completed {
                count += 1;
            } else {
                let ghost before = queue_rows(kept@);
                kept.push(self.queue[i].clone());
                assert(queue_rows(kept@) =~= before.push(q0[i as int]));
            }
            i += 1;
        }
        self.queue = kept;
        proof {
            assert(q0.take(q0.len() as int) =~= q0);
            lemma_queue_thinned_valid(old(self)@, keep);
        }
        count
    }

    /// The latest `limit` entries, the newest first; all of them where the
    /// limit is negative.
    pub fn get_recent_queue_entries(&self, limit: i64) -> (r: Vec<QueueEntry>)
        ensures
            queue_rows(r@) == recent_rows(self@.queue, limit as int),
    {
        let n: usize = self.queue.len();
        let mut r: Vec<QueueEntry> = Vec::new();
        let ghost q = self@.queue;
        while r.len() < n && (limit < 0 || (r.len() as u64) < limit as u64)
            invariant
                n == self.queue@.len(),
                q == self@.queue,
                r@.len() <= n,
                limit >= 0 ==> r@.len() <= limit,
                queue_rows(r@) =~= q.reverse().take(r@.len() as int),
            decreases n - r@.len(),
        {
            let k: usize = n - 1 - r.len();
            assert(self.queue@[k as int]@ == q[k as int]);
            let ghost before = queue_rows(r@);
            r.push(self.queue[k].clone());
            assert(queue_rows(r@) =~= before.push(q[k as int]));
        }
        r
    }
}

/// The latest `limit` rows of `q`, the newest first; all of them where the
/// limit is negative.
pub open spec fn recent_rows(q: Seq<QueueRow>, limit: int) -> Seq<QueueRow> {
    q.reverse().take(
        if 0 <= limit && limit < q.len() {
            limit
        } else {
            q.len() as int
        },
    )
}

// ── Watched folders ─────────────────────────────────────────────────────────

/// The row that a newly added folder gets.
pub open spec fn new_folder_row(
    id: i64,
    path: Seq<char>,
    label: Option<Seq<char>>,
    auto_added: bool,
    now: Seq<char>,
) -> FolderRow {
    FolderRow {
        id,
        path,
        label,
        enabled: true,
        watch_mode: WatchMode::Native,
        poll_interval_secs: 30,
        album_mode: AlbumMode::NoAlbum,
        album_name: None,
        include_patterns: None,
        exclude_patterns: None,
        post_upload: PostUpload::Keep,
        ignore_online_files: true,
        auto_added,
        created_at: now,
        updated_at: now,
    }
}

/// What adding a folder answers: its id, or why it was not added.
pub open spec fn add_folder_result(t: Tables, path: Seq<char>) -> Result<i64, DbError> {
    if t.has_path(path) {
        Err(DbError::DuplicatePath)
    } else if ids_exhausted(t.folder_ids()) {
        Err(DbError::IdsExhausted)
    } else {
        Ok(next_id(t.folder_ids()) as i64)
    }
}

/// The tables after a folder was added at `now`.
pub open spec fn after_add_folder(
    t: Tables,
    path: Seq<char>,
    label: Option<Seq<char>>,
    auto_added: bool,
    now: Seq<char>,
) -> Tables {
    match add_folder_result(t, path) {
        Ok(id) => Tables {
            folders: t.folders.push(new_folder_row(id, path, label, auto_added, now)),
            ..t
        },
        Err(_) => t,
    }
}

/// The settings of a folder that a user can change.
pub struct FolderSettings<'a> {
    pub label: Option<&'a str>,
    pub enabled: bool,
    pub watch_mode: WatchMode,
    pub poll_interval_secs: i64,
    pub album_mode: AlbumMode,
    pub album_name: Option<&'a str>,
    pub include_patterns: Option<&'a str>,
    pub exclude_patterns: Option<&'a str>,
    pub post_upload: PostUpload,
    pub ignore_online_files: bool,
}

/// A folder row with new settings.
pub open spec fn with_settings(r: FolderRow, s: FolderSettings, now: Seq<char>) -> FolderRow {
    FolderRow {
        label: s.label.deep_view(),
        enabled: s.enabled,
        watch_mode: s.watch_mode,
        poll_interval_secs: s.poll_interval_secs,
        album_mode: s.album_mode,
        album_name: s.album_name.deep_view(),
        include_patterns: s.include_patterns.deep_view(),
        exclude_patterns: s.exclude_patterns.deep_view(),
        post_upload: s.post_upload,
        ignore_online_files: s.ignore_online_files,
        updated_at: now,
        ..r
    }
}

/// `v` with new settings in the row `id`.
pub open spec fn after_update_folder(
    v: Seq<FolderRow>,
    id: i64,
    s: FolderSettings,
    now: Seq<char>,
) -> Seq<FolderRow> {
    v.map_values(
        |r: FolderRow|
            if r.id == id {
                with_settings(r, s, now)
            } else {
                r
            },
    )
}

/// The tables after the folder `id` was removed. A folder that queue entries
/// refer to stays.
pub open spec fn after_remove_folder(t: Tables, id: i64) -> Tables {
    if t.refers_to_folder(id) {
        t
    } else {
        Tables { folders: t.folders.filter(|r: FolderRow| r.id != id), ..t }
    }
}

proof fn lemma_add_folder_valid(t: Tables, r: FolderRow)
    requires
        t.valid(),
        r.id == next_id(t.folder_ids()),
        !t.has_path(r.path),
    ensures
        (Tables { folders: t.folders.push(r), ..t }).valid(),
{
    let u = Tables { folders: t.folders.push(r), ..t };
    assert(u.folder_ids() =~= t.folder_ids().push(r.id));
    lemma_ids_push(t.folder_ids(), r.id);
    assert(u.queue_ids() =~= t.queue_ids());
    assert(u.uploaded_ids() =~= t.uploaded_ids());
    assert forall|i: int, j: int| 0 <= i < j < u.folders.len() implies (#[trigger] u.folders[i]).path != (
    #[trigger] u.folders[j]).path by {
        assert(u.folders[i] == t.folders[i]);
        if j < t.folders.len() {
            assert(u.folders[j] == t.folders[j]);
        }
    }
    assert forall|i: int| 0 <= i < u.queue.len() implies ((#[trigger] u.queue[i]).folder_id matches Some(
        f,
    ) ==> u.has_folder(f)) by {
        if let Some(f) = t.queue[i].folder_id {
            assert(t.has_folder(f));
            let j = choose|j: int| 0 <= j < t.folders.len() && (#[trigger] t.folders[j]).id == f;
            assert(u.folders[j].id == f);
        }
    }
}

proof fn lemma_update_folder_valid(t: Tables, v: Seq<FolderRow>)
    requires
        t.valid(),
        v.len() == t.folders.len(),
        forall|i: int|
            0 <= i < v.len() ==> (#[trigger] v[i]).id == t.folders[i].id && v[i].path
                == t.folders[i].path,
    ensures
        (Tables { folders: v, ..t }).valid(),
{
    let u = Tables { folders: v, ..t };
    assert(u.folder_ids() =~= t.folder_ids());
    assert(u.queue_ids() =~= t.queue_ids());
    assert(u.uploaded_ids() =~= t.uploaded_ids());
    assert forall|i: int, j: int| 0 <= i < j < u.folders.len() implies (#[trigger] u.folders[i]).path != (
    #[trigger] u.folders[j]).path by {
        assert(t.folders[i].path != t.folders[j].path);
    }
    assert forall|i: int| 0 <= i < u.queue.len() implies ((#[trigger] u.queue[i]).folder_id matches Some(
        f,
    ) ==> u.has_folder(f)) by {
        if let Some(f) = t.queue[i].folder_id {
            assert(t.has_folder(f));
            let j = choose|j: int| 0 <= j < t.folders.len() && (#[trigger] t.folders[j]).id == f;
            assert(u.folders[j].id == f);
        }
    }
}

/// Removing one position of an ordered list of ids leaves it ordered.
proof fn lemma_ids_removed(ids: Seq<i64>, k: int)
    requires
        ids_ordered(ids),
        0 <= k < ids.len(),
    ensures
        ids_ordered(ids.remove(k)),
{
    let r = ids.remove(k);
    assert forall|i: int| 0 <= i < r.len() implies 0 < #[trigger] r[i] by {
        assert(r[i] == if i < k { ids[i] } else { ids[i + 1] });
    }
    assert forall|i: int, j: int| 0 <= i < j < r.len() implies #[trigger] r[i] < #[trigger] r[j] by {
        assert(r[i] == if i < k { ids[i] } else { ids[i + 1] });
        assert(r[j] == if j < k { ids[j] } else { ids[j + 1] });
    }
}

/// In a valid table, leaving out the id of row `k` leaves out row `k` only.
proof fn lemma_folder_filter_is_remove(t: Tables, k: int)
    requires
        t.valid(),
        0 <= k < t.folders.len(),
    ensures
        t.folders.filter(|r: FolderRow| r.id != t.folders[k].id) == t.folders.remove(k),
{
    let id = t.folders[k].id;
    let p = |r: FolderRow| r.id != id;
    let a = t.folders.take(k);
    let b = t.folders.skip(k + 1);
    let one = seq![t.folders[k]];
    assert(t.folders =~= (a + one) + b);
    Seq::filter_distributes_over_add(a + one, b, p);
    Seq::filter_distributes_over_add(a, one, p);
    assert forall|i: int| 0 <= i < t.folders.len() && i != k implies (#[trigger] t.folders[i]).id != id by {
        assert(t.folder_ids()[i] == t.folders[i].id);
        assert(t.folder_ids()[k] == id);
        if i < k {
            assert(t.folder_ids()[i] < t.folder_ids()[k]);
        } else {
            assert(t.folder_ids()[k] < t.folder_ids()[i]);
        }
    }
    assert(one.filter(p) =~= Seq::<FolderRow>::empty()) by {
        reveal_with_fuel(Seq::filter, 2);
    }
    lemma_filter_all(a, p);
    lemma_filter_all(b, p);
    assert(t.folders.remove(k) =~= a + b);
}

pub proof fn lemma_filter_all<A>(s: Seq<A>, p: spec_fn(A) -> bool)
    requires
        forall|i: int| 0 <= i < s.len() ==> p(#[trigger] s[i]),
    ensures
        s.filter(p) == s,
    decreases s.len(),
{
    reveal(Seq::filter);
    if s.len() > 0 {
        assert forall|i: int| 0 <= i < s.drop_last().len() implies p(#[trigger] s.drop_last()[i]) by {
            assert(s.drop_last()[i] == s[i]);
        }
        lemma_filter_all(s.drop_last(), p);
        assert(p(s[s.len() - 1]));
        assert(s.drop_last().push(s.last()) =~= s);
    }
}

impl Database {
    /// The position of the folder with this id.
    fn folder_position(&self, id: i64) -> (r: Option<usize>)
        ensures
            match r {
                Some(k) => k < self@.folders.len() && self@.folders[k as int].id == id,
                None => !self@.has_folder(id),
            },
    {
        let mut i: usize = 0;
        while i < self.folders.len()
            invariant
                i <= self.folders@.len(),
                forall|j: int| 0 <= j < i ==> (#[trigger] self@.folders[j]).id != id,
            decreases self.folders@.len() - i,
        {
            assert(self@.folders[i as int] == self.folders@[i as int]@);
            if self.folders[i].id == id {
                return Some(i);
            }
            i += 1;
        }
        None
    }

    /// The position of the folder with this path.
    fn path_position(&self, path: &str) -> (r: Option<usize>)
        ensures
            match r {
                Some(k) => k < self@.folders.len() && self@.folders[k as int].path == path@,
                None => !self@.has_path(path@),
            },
    {
        let mut i: usize = 0;
        while i < self.folders.len()
            invariant
                i <= self.folders@.len(),
                forall|j: int| 0 <= j < i ==> (#[trigger] self@.folders[j]).path != path@,
            decreases self.folders@.len() - i,
        {
            assert(self@.folders[i as int] == self.folders@[i as int]@);
            if str_eq(&self.folders[i].path, path) {
                return Some(i);
            }
            i += 1;
        }
        None
    }

    /// Add a watched folder at time `now`. Returns its id.
    pub fn add_folder_at(
        &mut self,
        path: &str,
        label: Option<&str>,
        auto_added: bool,
        now: &str,
    ) -> (r: Result<i64, DbError>)
        requires
            old(self).wf(),
        ensures
            final(self).wf(),
            r == add_folder_result(old(self)@, path@),
            final(self)@ == after_add_folder(
                old(self)@,
                path@,
                label.deep_view(),
                auto_added,
                now@,
            ),
    {
        if let Some(_) = self.path_position(path) {
            return Err(DbError::DuplicatePath);
        }
        let n: usize = self.folders.len();
        assert(self@.folder_ids().len() == n);
        let mut id: i64 = 1;
        if n > 0 {
            let last: i64 = self.folders[n - 1].id;
            assert(self@.folder_ids()[n - 1] == last);
            if last == i64::MAX {
                return Err(DbError::IdsExhausted);
            }
            id = last + 1;
        }
        let f: WatchedFolder = WatchedFolder {
            id,
            path: path.to_owned(),
            label: owned_opt(label),
            enabled: true,
            watch_mode: WatchMode::Native,
            poll_interval_secs: 30,
            album_mode: AlbumMode::NoAlbum,
            album_name: None,
            include_patterns: None,
            exclude_patterns: None,
            post_upload: PostUpload::Keep,
            ignore_online_files: true,
            auto_added,
            created_at: now.to_owned(),
            updated_at: now.to_owned(),
        };
        let ghost row = f@;
        self.folders.push(f);
        proof {
            assert(self@.folders =~= old(self)@.folders.push(row));
            lemma_add_folder_valid(old(self)@, row);
        }
        Ok(id)
    }

    /// Add a watched folder. Returns its id.
    ///
    /// Placeholder files of cloud storage are skipped in a new folder, so that
    /// a scan does not download them.
    pub fn add_folder(
        &mut self,
        path: &str,
        label: Option<&str>,
        auto_added: bool,
    ) -> (r: Result<i64, DbError>)
        requires
            old(self).wf(),
        ensures
            final(self).wf(),
            r == add_folder_result(old(self)@, path@),
            exists|now: Seq<char>|
                clock::names_instant(now) && final(self)@ == #[trigger] after_add_folder(
                    old(self)@,
                    path@,
                    label.deep_view(),
                    auto_added,
                    now,
                ),
    {
        let now: String = now_text();
        self.add_folder_at(path, label, auto_added, &now)
    }

    /// Remove a watched folder by id. Fails, and removes nothing, while queue
    /// entries refer to it.
    pub fn remove_folder(&mut self, id: i64) -> (r: Result<(), DbError>)
        requires
            old(self).wf(),
        ensures
            final(self).wf(),
            r == (if old(self)@.refers_to_folder(id) {
                Err::<(), DbError>(DbError::ForeignKey)
            } else {
                Ok(())
            }),
            final(self)@ == after_remove_folder(old(self)@, id),
    {
        let mut i: usize = 0;
        while i < self.queue.len()
            invariant
                i <= self.queue@.len(),
                *self == *old(self),
                old(self).wf(),
                forall|j: int| 0 <= j < i ==> (#[trigger] self@.queue[j]).folder_id != Some(id),
            decreases self.queue@.len() - i,
        {
            assert(self@.queue[i as int] == self.queue@[i as int]@);
            if let Some(f) = self.queue[i].folder_id {
                if f == id {
                    return Err(DbError::ForeignKey);
                }
            }
            i += 1;
        }
        match self.folder_position(id) {
            None => {
                proof {
                    let p = |r: FolderRow| r.id != id;
                    assert forall|j: int| 0 <= j < self@.folders.len() implies p(
                        #[trigger] self@.folders[j],
                    ) by {}
                    lemma_filter_all(self@.folders, p);
                    assert(self@ =~= after_remove_folder(old(self)@, id));
                }
            },
            Some(k) => {
                let _ = self.folders.remove(k);
                proof {
                    let t = old(self)@;
                    lemma_folder_filter_is_remove(t, k as int);
                    assert(self@.folders =~= t.folders.remove(k as int));
                    assert(self@ =~= after_remove_folder(t, id));
                    let u = self@;
                    assert(u.folder_ids() =~= t.folder_ids().remove(k as int));
                    lemma_ids_removed(t.folder_ids(), k as int);
                    assert(u.queue_ids() =~= t.queue_ids());
                    assert(u.uploaded_ids() =~= t.uploaded_ids());
                    assert forall|i: int, j: int| 0 <= i < j < u.folders.len() implies (
                    #[trigger] u.folders[i]).path != (#[trigger] u.folders[j]).path by {
                        let a = if i < k { i } else { i + 1 };
                        let b = if j < k { j } else { j + 1 };
                        assert(t.folders[a].path != t.folders[b].path);
                    }
                    assert forall|i: int| 0 <= i < u.queue.len() implies ((
                    #[trigger] u.queue[i]).folder_id matches Some(f) ==> u.has_folder(f)) by {
                        if let Some(f) = t.queue[i].folder_id {
                            assert(t.has_folder(f));
                            let j = choose|j: int|
                                0 <= j < t.folders.len() && (#[trigger] t.folders[j]).id == f;
                            assert(j != k);
                            let m = if j < k { j } else { j - 1 };
                            assert(u.folders[m].id == f);
                        }
                    }
                }
            },
        }
        Ok(())
    }

    /// All watched folders, in the order of their ids.
    pub fn get_folders(&self) -> (r: Vec<WatchedFolder>)
        ensures
            folder_rows(r@) == self@.folders,
    {
        let mut r: Vec<WatchedFolder> = Vec::new();
        let mut i: usize = 0;
        while i < self.folders.len()
            invariant
                i <= self.folders@.len(),
                r@ =~= self.folders@.take(i as int),
            decreases self.folders@.len() - i,
        {
            r.push(self.folders[i].clone());
            i += 1;
        }
        assert(r@ =~= self.folders@);
        r
    }

    /// The watched folder with this id.
    pub fn get_folder(&self, id: i64) -> (r: Option<WatchedFolder>)
        ensures
            match r {
                Some(f) => self@.folders.contains(f@) && f@.id == id,
                None => !self@.has_folder(id),
            },
    {
        match self.folder_position(id) {
            Some(k) => {
                let f: WatchedFolder = self.folders[k].clone();
                assert(self@.folders[k as int] == f@);
                Some(f)
            },
            None => None,
        }
    }

    /// The watched folder with this path.
    pub fn get_folder_by_path(&self, path: &str) -> (r: Option<WatchedFolder>)
        ensures
            match r {
                Some(f) => self@.folders.contains(f@) && f@.path == path@,
                None => !self@.has_path(path@),
            },
    {
        match self.path_position(path) {
            Some(k) => {
                let f: WatchedFolder = self.folders[k].clone();
                assert(self@.folders[k as int] == f@);
                Some(f)
            },
            None => None,
        }
    }

    /// Change the settings of the folder `id` at time `now`; an unknown id
    /// changes nothing.
    pub fn update_folder_at(&mut self, id: i64, s: &FolderSettings, now: &str)
        requires
            old(self).wf(),
        ensures
            final(self).wf(),
            final(self)@ == (Tables {
                folders: after_update_folder(old(self)@.folders, id, *s, now@),
                ..old(self)@
            }),
    {
        let ghost q0 = self@.folders;
        let ghost q2 = after_update_folder(q0, id, *s, now@);
        let mut i: usize = 0;
        while i < self.folders.len()
            invariant
                i <= self.folders@.len(),
                self.folders@.len() == q0.len(),
                q0 == old(self)@.folders,
                q2 == after_update_folder(q0, id, *s, now@),
                self@ == (Tables { folders: q2.take(i as int) + q0.skip(i as int), ..old(self)@ }),
            decreases self.folders@.len() - i,
        {
            assert(self@.folders[i as int] == self.folders@[i as int]@);
            assert(self@.folders[i as int] == q0[i as int]);
            if self.folders[i].id == id {
                let mut f: WatchedFolder = self.folders[i].clone();
                f.label = owned_opt(s.label);
                f.enabled = s.enabled;
                f.watch_mode = s.watch_mode;
                f.poll_interval_secs = s.poll_interval_secs;
                f.album_mode = s.album_mode;
                f.album_name = owned_opt(s.album_name);
                f.include_patterns = owned_opt(s.include_patterns);
                f.exclude_patterns = owned_opt(s.exclude_patterns);
                f.post_upload = s.post_upload;
                f.ignore_online_files = s.ignore_online_files;
                f.updated_at = now.to_owned();
                assert(f@ =~= q2[i as int]);
                self.folders.set(i, f);
            }
            proof {
                lemma_rewrite_step(q0, q2, i as int);
                assert(self@.folders =~= (q2.take(i as int) + q0.skip(i as int)).update(
                    i as int,
                    q2[i as int],
                ));
            }
            i += 1;
        }
        proof {
            assert(q2.take(q0.len() as int) + q0.skip(q0.len() as int) =~= q2);
            lemma_update_folder_valid(old(self)@, q2);
        }
    }

    /// Change the settings of the folder `id`; an unknown id changes nothing.
    pub fn update_folder(
        &mut self,
        id: i64,
        label: Option<&str>,
        enabled: bool,
        watch_mode: &WatchMode,
        poll_interval_secs: i64,
        album_mode: &AlbumMode,
        album_name: Option<&str>,
        include_patterns: Option<&str>,
        exclude_patterns: Option<&str>,
        post_upload: &PostUpload,
        ignore_online_files: bool,
    )
        requires
            old(self).wf(),
        ensures
            final(self).wf(),
            exists|now: Seq<char>|
                clock::names_instant(now) && final(self)@ == (Tables {
                    folders: #[trigger] after_update_folder(
                        old(self)@.folders,
                        id,
                        (FolderSettings {
                            label,
                            enabled,
                            watch_mode: *watch_mode,
                            poll_interval_secs,
                            album_mode: *album_mode,
                            album_name,
                            include_patterns,
                            exclude_patterns,
                            post_upload: *post_upload,
                            ignore_online_files,
                        }),
                        now,
                    ),
                    ..old(self)@
                }),
    {
        let now: String = now_text();
        let s = FolderSettings {
            label,
            enabled,
            watch_mode: *watch_mode,
            poll_interval_secs,
            album_mode: *album_mode,
            album_name,
            include_patterns,
            exclude_patterns,
            post_upload: *post_upload,
            ignore_online_files,
        };
        self.update_folder_at(id, &s, &now)
    }
}

// ── Uploaded files ──────────────────────────────────────────────────────────

/// The prefix of Windows extended-length paths.
pub const EXTENDED_PREFIX: &'static str = "\\\\?\\";

/// Whether some uploaded file has this content hash.
pub open spec fn hash_recorded(t: Tables, hash: Seq<char>) -> bool {
    exists|i: int| 0 <= i < t.uploaded.len() && (#[trigger] t.uploaded[i]).file_hash == hash
}

/// Whether a file with this path, size and modification time was uploaded.
pub open spec fn file_recorded(t: Tables, path: Seq<char>, size: i64, mtime: i64) -> bool {
    exists|i: int|
        0 <= i < t.uploaded.len() && (#[trigger] t.uploaded[i]).file_path == path
            && t.uploaded[i].file_size == size && t.uploaded[i].file_mtime == mtime
}

/// What recording an upload answers: the id of the record, or why there is none.
pub open spec fn record_result(t: Tables) -> Result<i64, DbError> {
    if ids_exhausted(t.uploaded_ids()) {
        Err(DbError::IdsExhausted)
    } else {
        Ok(next_id(t.uploaded_ids()) as i64)
    }
}

/// The tables after an upload was recorded; `r` is the record, but for its id.
pub open spec fn after_record(t: Tables, r: UploadedRow) -> Tables {
    match record_result(t) {
        Ok(id) => Tables { uploaded: t.uploaded.push(UploadedRow { id, ..r }), ..t },
        Err(_) => t,
    }
}

/// The directory text that the paths of files inside `folder` start with: the
/// folder without the extended-length prefix, and with a separator at its end.
pub open spec fn folder_prefix(folder: Seq<char>) -> Seq<char> {
    let canonical = text::without_prefix(folder, EXTENDED_PREFIX@);
    if canonical.len() > 0 && (canonical.last() == '\\' || canonical.last() == '/') {
        canonical
    } else {
        canonical.push('\\')
    }
}

/// Whether `path` lies inside `folder`, in its plain or its extended-length
/// spelling; the case of ASCII letters does not count.
pub open spec fn inside_folder(path: Seq<char>, folder: Seq<char>) -> bool {
    let prefix = folder_prefix(folder);
    ||| text::ascii_lowered(prefix).is_prefix_of(text::ascii_lowered(path))
    ||| text::ascii_lowered(EXTENDED_PREFIX@ + prefix).is_prefix_of(text::ascii_lowered(path))
}

/// The paths of the uploaded files inside `folder`, in the order of their ids.
pub open spec fn uploaded_inside(v: Seq<UploadedRow>, folder: Seq<char>) -> Seq<Seq<char>> {
    v.map_values(|r: UploadedRow| r.file_path).filter(|p: Seq<char>| inside_folder(p, folder))
}

impl Database {
    /// Whether a file with this SHA-1 hash was uploaded.
    pub fn is_file_uploaded(&self, hash: &str) -> (r: bool)
        ensures
            r == hash_recorded(self@, hash@),
    {
        let mut i: usize = 0;
        while i < self.uploaded.len()
            invariant
                i <= self.uploaded@.len(),
                forall|j: int| 0 <= j < i ==> (#[trigger] self@.uploaded[j]).file_hash != hash@,
            decreases self.uploaded@.len() - i,
        {
            assert(self@.uploaded[i as int] == self.uploaded@[i as int]@);
            if str_eq(&self.uploaded[i].file_hash, hash) {
                return true;
            }
            i += 1;
        }
        false
    }

    /// Whether a file with exactly this path, size and modification time was
    /// uploaded. A hit lets the caller skip the file without opening it.
    pub fn is_file_uploaded_fast_path(
        &self,
        file_path: &str,
        file_size: i64,
        file_mtime: i64,
    ) -> (r: bool)
        ensures
            r == file_recorded(self@, file_path@, file_size, file_mtime),
    {
        let mut i: usize = 0;
        while i < self.uploaded.len()
            invariant
                i <= self.uploaded@.len(),
                forall|j: int|
                    0 <= j < i ==> (#[trigger] self@.uploaded[j]).file_path != file_path@
                        || self@.uploaded[j].file_size != file_size || self@.uploaded[j].file_mtime
                        != file_mtime,
            decreases self.uploaded@.len() - i,
        {
            assert(self@.uploaded[i as int] == self.uploaded@[i as int]@);
            let u = &self.uploaded[i];
            if u.file_size == file_size && u.file_mtime == file_mtime && str_eq(
                &u.file_path,
                file_path,
            ) {
                return true;
            }
            i += 1;
        }
        false
    }

    /// Record an uploaded file at time `now`. Returns the id of the record.
    pub fn record_upload_at(
        &mut self,
        file_path: &str,
        file_hash: &str,
        file_size: i64,
        file_mtime: i64,
        immich_asset_id: Option<&str>,
        device_asset_id: &str,
        server_url: &str,
        now: &str,
    ) -> (r: Result<i64, DbError>)
        requires
            old(self).wf(),
        ensures
            final(self).wf(),
            r == record_result(old(self)@),
            final(self)@ == after_record(
                old(self)@,
                upload_record(
                    file_path@,
                    file_hash@,
                    file_size,
                    file_mtime,
                    immich_asset_id.deep_view(),
                    device_asset_id@,
                    server_url@,
                    now@,
                ),
            ),
    {
        let n: usize = self.uploaded.len();
        assert(self@.uploaded_ids().len() == n);
        let mut id: i64 = 1;
        if n > 0 {
            let last: i64 = self.uploaded[n - 1].id;
            assert(self@.uploaded_ids()[n - 1] == last);
            if last == i64::MAX {
                return Err(DbError::IdsExhausted);
            }
            id = last + 1;
        }
        let u: UploadedFile = UploadedFile {
            id,
            file_path: file_path.to_owned(),
            file_hash: file_hash.to_owned(),
            file_size,
            file_mtime,
            immich_asset_id: owned_opt(immich_asset_id),
            device_asset_id: device_asset_id.to_owned(),
            uploaded_at: now.to_owned(),
            server_url: server_url.to_owned(),
        };
        let ghost row = u@;
        self.uploaded.push(u);
        proof {
            let t = old(self)@;
            assert(self@.uploaded =~= t.uploaded.push(row));
            assert(self@.uploaded_ids() =~= t.uploaded_ids().push(id));
            lemma_ids_push(t.uploaded_ids(), id);
            assert(self@.folder_ids() =~= t.folder_ids());
            assert(self@.queue_ids() =~= t.queue_ids());
            lemma_folders_unchanged(t, self@);
        }
        Ok(id)
    }

    /// Record an uploaded file. Returns the id of the record.
    pub fn record_upload(
        &mut self,
        file_path: &str,
        file_hash: &str,
        file_size: i64,
        file_mtime: i64,
        immich_asset_id: Option<&str>,
        device_asset_id: &str,
        server_url: &str,
    ) -> (r: Result<i64, DbError>)
        requires
            old(self).wf(),
        ensures
            final(self).wf(),
            r == record_result(old(self)@),
            exists|now: Seq<char>|
                clock::names_instant(now) && final(self)@ == after_record(
                    old(self)@,
                    #[trigger] upload_record(
                        file_path@,
                        file_hash@,
                        file_size,
                        file_mtime,
                        immich_asset_id.deep_view(),
                        device_asset_id@,
                        server_url@,
                        now,
                    ),
                ),
    {
        let now: String = now_text();
        let ghost row = upload_record(
            file_path@,
            file_hash@,
            file_size,
            file_mtime,
            immich_asset_id.deep_view(),
            device_asset_id@,
            server_url@,
            now@,
        );
        self.record_upload_at(
            file_path,
            file_hash,
            file_size,
            file_mtime,
            immich_asset_id,
            device_asset_id,
            server_url,
            &now,
        )
    }

    /// The paths of the uploaded files inside `folder_path`, and of no file
    /// outside it. Both plain paths and extended-length paths count.
    pub fn get_uploaded_paths_in_folder(&self, folder_path: &str) -> (r: Vec<String>)
        ensures
            text::texts(r@) == uploaded_inside(self@.uploaded, folder_path@),
    {
        let canonical: String = drop_prefix(folder_path, EXTENDED_PREFIX);
        let mut prefix: String = canonical.clone();
        if !(ends_with_char(&canonical, '\\') || ends_with_char(&canonical, '/')) {
            prefix.push('\\');
        }
        assert(prefix@ =~= folder_prefix(folder_path@));
        let ext_prefix: String = concat2(EXTENDED_PREFIX, &prefix);
        let ghost p = |s: Seq<char>| inside_folder(s, folder_path@);
        let ghost all = self@.uploaded.map_values(|r: UploadedRow| r.file_path);
        let mut paths: Vec<String> = Vec::new();
        let mut i: usize = 0;
        proof {
            reveal(Seq::filter);
            assert(all.take(0) =~= Seq::<Seq<char>>::empty());
            assert(text::texts(paths@) =~= all.take(0).filter(p));
        }
        while i < self.uploaded.len()
            invariant
                i <= self.uploaded@.len(),
                p == (|s: Seq<char>| inside_folder(s, folder_path@)),
                all == self@.uploaded.map_values(|r: UploadedRow| r.file_path),
                prefix@ == folder_prefix(folder_path@),
                ext_prefix@ == EXTENDED_PREFIX@ + prefix@,
                text::texts(paths@) == all.take(i as int).filter(p),
            decreases self.uploaded@.len() - i,
        {
            let path = &self.uploaded[i].file_path;
            proof {
                assert(self@.uploaded[i as int] == self.uploaded@[i as int]@);
                assert(all[i as int] == path@);
                assert(all.take(i + 1) =~= all.take(i as int).push(path@));
                all.take(i as int).lemma_filter_push(path@, p);
            }
            if has_prefix_ignore_ascii_case(path, &prefix) || has_prefix_ignore_ascii_case(
                path,
                &ext_prefix,
            ) {
                let ghost before = text::texts(paths@);
                paths.push(path.clone());
                assert(text::texts(paths@) =~= before.push(path@));
            }
            i += 1;
        }
        assert(all.take(all.len() as int) =~= all);
        paths
    }
}

/// The record of an upload, but for its id.
pub open spec fn upload_record(
    file_path: Seq<char>,
    file_hash: Seq<char>,
    file_size: i64,
    file_mtime: i64,
    immich_asset_id: Option<Seq<char>>,
    device_asset_id: Seq<char>,
    server_url: Seq<char>,
    now: Seq<char>,
) -> UploadedRow {
    UploadedRow {
        id: 0,
        file_path,
        file_hash,
        file_size,
        file_mtime,
        immich_asset_id,
        device_asset_id,
        uploaded_at: now,
        server_url,
    }
}

/// Where folders and queue stay, so do the references between them.
proof fn lemma_folders_unchanged(t: Tables, u: Tables)
    requires
        t.valid(),
        u.folders == t.folders,
        u.queue == t.queue,
    ensures
        forall|i: int|
            0 <= i < u.queue.len() ==> ((#[trigger] u.queue[i]).folder_id matches Some(f)
                ==> u.has_folder(f)),
{
    assert forall|i: int| 0 <= i < u.queue.len() implies ((#[trigger] u.queue[i]).folder_id matches Some(
        f,
    ) ==> u.has_folder(f)) by {
        if let Some(f) = t.queue[i].folder_id {
            assert(t.has_folder(f));
            let j = choose|j: int| 0 <= j < t.folders.len() && (#[trigger] t.folders[j]).id == f;
            assert(u.folders[j].id == f);
        }
    }
}

// ── Settings and schema ─────────────────────────────────────────────────────

/// The key of the schema version in the `config` table.
pub const SCHEMA_VERSION_KEY: &'static str = "schema_version";

/// The schema version of an up-to-date database.
pub const LATEST_SCHEMA: u32 = 3;

/// The schema version that the `config` table records; 0 where it records none.
pub open spec fn schema_version(t: Tables) -> u32 {
    match t.config_value(SCHEMA_VERSION_KEY@) {
        Some(v) => match text::parsed_u32(v) {
            Some(n) => n,
            None => 0,
        },
        None => 0,
    }
}

/// The migrations that a database of version `current` still needs, in order.
pub open spec fn pending_migrations(current: u32) -> Seq<u32> {
    if current < 1 {
        seq![1u32, 2u32, 3u32]
    } else if current < 2 {
        seq![2u32, 3u32]
    } else if current < 3 {
        seq![3u32]
    } else {
        Seq::empty()
    }
}

/// The migrations that a database of version `current` still needs, in order.
pub fn migrations_from(current: u32) -> (r: Vec<u32>)
    ensures
        r@ == pending_migrations(current),
{
    let mut r: Vec<u32> = Vec::new();
    if current < 1 {
        r.push(1);
    }
    if current < 2 {
        r.push(2);
    }
    if current < 3 {
        r.push(3);
    }
    assert(r@ =~= pending_migrations(current));
    r
}

/// The position of the setting `key` is the only one with that key.
proof fn lemma_config_at(t: Tables, k: int)
    requires
        t.valid(),
        0 <= k < t.config.len(),
    ensures
        t.config_value(t.config[k].0) == Some(t.config[k].1),
{
    let key = t.config[k].0;
    let i = choose|i: int| 0 <= i < t.config.len() && (#[trigger] t.config[i]).0 == key;
    assert(t.config[k].0 == key);
    if i < k {
        assert(t.config[i].0 != t.config[k].0);
    } else if k < i {
        assert(t.config[k].0 != t.config[i].0);
    }
}

impl Database {
    /// The position of the setting `key`.
    fn config_position(&self, key: &str) -> (r: Option<usize>)
        ensures
            match r {
                Some(k) => k < self@.config.len() && self@.config[k as int].0 == key@,
                None => forall|j: int|
                    0 <= j < self@.config.len() ==> (#[trigger] self@.config[j]).0 != key@,
            },
    {
        let mut i: usize = 0;
        while i < self.config.len()
            invariant
                i <= self.config@.len(),
                forall|j: int| 0 <= j < i ==> (#[trigger] self@.config[j]).0 != key@,
            decreases self.config@.len() - i,
        {
            assert(self@.config[i as int].0 == self.config@[i as int].0@);
            if str_eq(&self.config[i].0, key) {
                return Some(i);
            }
            i += 1;
        }
        None
    }

    /// The value of a key of the `config` table.
    pub fn get_config_value(&self, key: &str) -> (r: Option<String>)
        requires
            self.wf(),
        ensures
            text::opt_text(r) == self@.config_value(key@),
    {
        match self.config_position(key) {
            Some(k) => {
                proof {
                    lemma_config_at(self@, k as int);
                }
                Some(self.config[k].1.clone())
            },
            None => None,
        }
    }

    /// Set a value of the `config` table. Other keys keep their values.
    pub fn set_config_value(&mut self, key: &str, value: &str)
        requires
            old(self).wf(),
        ensures
            final(self).wf(),
            final(self)@.config_value(key@) == Some(value@),
            forall|other: Seq<char>|
                other != key@ ==> #[trigger] final(self)@.config_value(other) == old(
                    self,
                )@.config_value(other),
            final(self)@ == (Tables { config: final(self)@.config, ..old(self)@ }),
    {
        let entry: (String, String) = (key.to_owned(), value.to_owned());
        let ghost pair = (key@, value@);
        let ghost t = self@;
        match self.config_position(key) {
            Some(k) => {
                self.config.set(k, entry);
                proof {
                    let u = self@;
                    assert(u.config =~= t.config.update(k as int, pair));
                    assert forall|i: int, j: int| 0 <= i < j < u.config.len() implies (
                    #[trigger] u.config[i]).0 != (#[trigger] u.config[j]).0 by {
                        assert(u.config[i].0 == t.config[i].0);
                        assert(u.config[j].0 == t.config[j].0);
                    }
                    lemma_config_only(t, u);
                    lemma_config_at(u, k as int);
                    assert forall|other: Seq<char>| other != key@ implies #[trigger] u.config_value(
                        other,
                    ) == t.config_value(other) by {
                        lemma_config_kept(t, u, key@, other);
                    }
                }
            },
            None => {
                self.config.push(entry);
                proof {
                    let u = self@;
                    assert(u.config =~= t.config.push(pair));
                    assert forall|i: int, j: int| 0 <= i < j < u.config.len() implies (
                    #[trigger] u.config[i]).0 != (#[trigger] u.config[j]).0 by {
                        assert(u.config[i].0 == t.config[i].0);
                        if j < t.config.len() {
                            assert(u.config[j].0 == t.config[j].0);
                        }
                    }
                    lemma_config_only(t, u);
                    lemma_config_at(u, t.config.len() as int);
                    assert forall|other: Seq<char>| other != key@ implies #[trigger] u.config_value(
                        other,
                    ) == t.config_value(other) by {
                        lemma_config_kept(t, u, key@, other);
                    }
                }
            },
        }
    }

    /// The schema version that the `config` table records; 0 where it records
    /// none, or no number.
    pub fn get_schema_version(&self) -> (r: u32)
        requires
            self.wf(),
        ensures
            r == schema_version(self@),
    {
        match self.get_config_value(SCHEMA_VERSION_KEY) {
            Some(v) => match parse_u32(&v) {
                Some(n) => n,
                None => 0,
            },
            None => 0,
        }
    }

    /// Record the schema version.
    pub fn set_schema_version(&mut self, version: u32)
        requires
            old(self).wf(),
        ensures
            final(self).wf(),
            final(self)@.config_value(SCHEMA_VERSION_KEY@) == Some(
                text::decimal(version as nat),
            ),
            schema_version(final(self)@) == version,
            forall|other: Seq<char>|
                other != SCHEMA_VERSION_KEY@ ==> #[trigger] final(self)@.config_value(other)
                    == old(self)@.config_value(other),
            final(self)@ == (Tables { config: final(self)@.config, ..old(self)@ }),
    {
        let v: String = u64_text(version as u64);
        self.set_config_value(SCHEMA_VERSION_KEY, &v);
        proof {
            text::lemma_decimal_reads_back(version);
        }
    }

    /// An empty database of the latest schema.
    pub fn new() -> (r: Database)
        ensures
            r.wf(),
            schema_version(r@) == LATEST_SCHEMA,
            r@.folders == Seq::<FolderRow>::empty(),
            r@.uploaded == Seq::<UploadedRow>::empty(),
            r@.queue == Seq::<QueueRow>::empty(),
            forall|key: Seq<char>|
                key != SCHEMA_VERSION_KEY@ ==> #[trigger] r@.config_value(key) is None,
    {
        let mut r: Database = Database {
            config: Vec::new(),
            folders: Vec::new(),
            uploaded: Vec::new(),
            queue: Vec::new(),
        };
        r.set_schema_version(LATEST_SCHEMA);
        assert(r@.folders =~= Seq::<FolderRow>::empty());
        assert(r@.uploaded =~= Seq::<UploadedRow>::empty());
        assert(r@.queue =~= Seq::<QueueRow>::empty());
        r
    }
}

/// Changing settings only, with keys still distinct, keeps the tables valid.
proof fn lemma_config_only(t: Tables, u: Tables)
    requires
        t.valid(),
        u == (Tables { config: u.config, ..t }),
        forall|i: int, j: int|
            0 <= i < j < u.config.len() ==> (#[trigger] u.config[i]).0 != (
            #[trigger] u.config[j]).0,
    ensures
        u.valid(),
{
    assert(u.folder_ids() =~= t.folder_ids());
    assert(u.uploaded_ids() =~= t.uploaded_ids());
    assert(u.queue_ids() =~= t.queue_ids());
    lemma_folders_unchanged(t, u);
}

/// A key other than the one that was set keeps its value.
proof fn lemma_config_kept(t: Tables, u: Tables, key: Seq<char>, other: Seq<char>)
    requires
        t.valid(),
        u.valid(),
        other != key,
        t.config.len() <= u.config.len() <= t.config.len() + 1,
        forall|i: int|
            0 <= i < t.config.len() ==> u.config[i] == (#[trigger] t.config[i]) || (t.config[i].0
                == key && u.config[i].0 == key),
        u.config.len() > t.config.len() ==> u.config.last().0 == key,
    ensures
        u.config_value(other) == t.config_value(other),
{
    if exists|i: int| 0 <= i < t.config.len() && (#[trigger] t.config[i]).0 == other {
        let i = choose|i: int| 0 <= i < t.config.len() && (#[trigger] t.config[i]).0 == other;
        assert(u.config[i] == t.config[i]);
        lemma_config_at(t, i);
        lemma_config_at(u, i);
    } else {
        assert forall|i: int| 0 <= i < u.config.len() implies (#[trigger] u.config[i]).0 != other by {
            if i < t.config.len() {
                assert(t.config[i].0 != other);
            }
        }
    }
}

// ── Loading rows ────────────────────────────────────────────────────────────

/// Whether `ids` start above zero and grow.
fn check_ids(ids: &Vec<i64>) -> (r: bool)
    ensures
        r == ids_ordered(ids@),
{
    let mut i: usize = 0;
    while i < ids.len()
        invariant
            i <= ids@.len(),
            ids_ordered(ids@.take(i as int)),
        decreases ids@.len() - i,
    {
        let ghost t = ids@.take(i as int);
        if ids[i] <= 0 {
            assert(ids@[i as int] <= 0);
            return false;
        }
        if i > 0 && ids[i - 1] >= ids[i] {
            assert(!(ids@[i - 1] < ids@[i as int]));
            return false;
        }
        proof {
            let u = ids@.take(i + 1);
            assert forall|a: int| 0 <= a < u.len() implies 0 < #[trigger] u[a] by {
                if a < i {
                    assert(u[a] == t[a]);
                }
            }
            assert forall|a: int, b: int| 0 <= a < b < u.len() implies #[trigger] u[a]
                < #[trigger] u[b] by {
                if b < i {
                    assert(u[a] == t[a] && u[b] == t[b]);
                } else if a < i - 1 {
                    assert(u[a] == t[a]);
                    assert(t[a] < t[i - 1]);
                }
            }
        }
        i += 1;
    }
    assert(ids@.take(ids@.len() as int) =~= ids@);
    true
}

impl Database {
    fn folders_sound(&self) -> (r: bool)
        ensures
            r == (ids_ordered(self@.folder_ids()) && forall|i: int, j: int|
                0 <= i < j < self@.folders.len() ==> (#[trigger] self@.folders[i]).path != (
                #[trigger] self@.folders[j]).path),
    {
        let mut ids: Vec<i64> = Vec::new();
        let mut i: usize = 0;
        while i < self.folders.len()
            invariant
                i <= self.folders@.len(),
                ids@ =~= self@.folder_ids().take(i as int),
                forall|a: int, b: int|
                    0 <= a < b < i ==> (#[trigger] self@.folders[a]).path != (
                    #[trigger] self@.folders[b]).path,
            decreases self.folders@.len() - i,
        {
            assert(self@.folders[i as int] == self.folders@[i as int]@);
            let mut j: usize = 0;
            while j < i
                invariant
                    j <= i < self.folders@.len(),
                    forall|a: int| 0 <= a < j ==> (#[trigger] self@.folders[a]).path
                        != self@.folders[i as int].path,
                decreases i - j,
            {
                assert(self@.folders[j as int] == self.folders@[j as int]@);
                if str_eq(&self.folders[j].path, &self.folders[i].path) {
                    return false;
                }
                j += 1;
            }
            ids.push(self.folders[i].id);
            i += 1;
        }
        assert(ids@ =~= self@.folder_ids());
        check_ids(&ids)
    }

    fn settings_sound(&self) -> (r: bool)
        ensures
            r == forall|i: int, j: int|
                0 <= i < j < self@.config.len() ==> (#[trigger] self@.config[i]).0 != (
                #[trigger] self@.config[j]).0,
    {
        let mut i: usize = 0;
        while i < self.config.len()
            invariant
                i <= self.config@.len(),
                forall|a: int, b: int|
                    0 <= a < b < i ==> (#[trigger] self@.config[a]).0 != (
                    #[trigger] self@.config[b]).0,
            decreases self.config@.len() - i,
        {
            let mut j: usize = 0;
            while j < i
                invariant
                    j <= i < self.config@.len(),
                    forall|a: int| 0 <= a < j ==> (#[trigger] self@.config[a]).0
                        != self@.config[i as int].0,
                decreases i - j,
            {
                assert(self@.config[j as int].0 == self.config@[j as int].0@);
                assert(self@.config[i as int].0 == self.config@[i as int].0@);
                if str_eq(&self.config[j].0, &self.config[i].0) {
                    return false;
                }
                j += 1;
            }
            i += 1;
        }
        true
    }

    fn queue_sound(&self) -> (r: bool)
        ensures
            r == (ids_ordered(self@.queue_ids()) && forall|i: int|
                0 <= i < self@.queue.len() ==> ((#[trigger] self@.queue[i]).folder_id matches Some(
                    f,
                ) ==> self@.has_folder(f))),
    {
        let mut ids: Vec<i64> = Vec::new();
        let mut i: usize = 0;
        while i < self.queue.len()
            invariant
                i <= self.queue@.len(),
                ids@ =~= self@.queue_ids().take(i as int),
                forall|a: int|
                    0 <= a < i ==> ((#[trigger] self@.queue[a]).folder_id matches Some(f)
                        ==> self@.has_folder(f)),
            decreases self.queue@.len() - i,
        {
            assert(self@.queue[i as int] == self.queue@[i as int]@);
            if let Some(f) = self.queue[i].folder_id {
                if !self.folder_exists(f) {
                    return false;
                }
            }
            ids.push(self.queue[i].id);
            i += 1;
        }
        assert(ids@ =~= self@.queue_ids());
        check_ids(&ids)
    }

    fn uploads_sound(&self) -> (r: bool)
        ensures
            r == ids_ordered(self@.uploaded_ids()),
    {
        let mut ids: Vec<i64> = Vec::new();
        let mut i: usize = 0;
        while i < self.uploaded.len()
            invariant
                i <= self.uploaded@.len(),
                ids@ =~= self@.uploaded_ids().take(i as int),
            decreases self.uploaded@.len() - i,
        {
            ids.push(self.uploaded[i].id);
            i += 1;
        }
        assert(ids@ =~= self@.uploaded_ids());
        check_ids(&ids)
    }

    /// The database with these rows, where they form a valid one.
    pub fn from_rows(
        config: Vec<(String, String)>,
        folders: Vec<WatchedFolder>,
        uploaded: Vec<UploadedFile>,
        queue: Vec<QueueEntry>,
    ) -> (r: Result<Database, DbError>)
        ensures
            match r {
                Ok(db) => db.wf() && db@ == loaded_tables(config@, folders@, uploaded@, queue@),
                Err(e) => e == DbError::Corrupt && !loaded_tables(
                    config@,
                    folders@,
                    uploaded@,
                    queue@,
                ).valid(),
            },
    {
        let db: Database = Database { config, folders, uploaded, queue };
        assert(db@ =~= loaded_tables(config@, folders@, uploaded@, queue@));
        if db.folders_sound() && db.settings_sound() && db.uploads_sound() && db.queue_sound() {
            Ok(db)
        } else {
            Err(DbError::Corrupt)
        }
    }

    /// The rows of the database. [`Database::from_rows`] gives back from them a
    /// database with the same contents.
    pub fn into_rows(self) -> (r: DatabaseRows)
        requires
            self.wf(),
        ensures
            loaded_tables(r.config@, r.folders@, r.uploaded@, r.queue@) == self@,
            loaded_tables(r.config@, r.folders@, r.uploaded@, r.queue@).valid(),
    {
        let r: DatabaseRows = DatabaseRows {
            config: self.config,
            folders: self.folders,
            uploaded: self.uploaded,
            queue: self.queue,
        };
        assert(loaded_tables(r.config@, r.folders@, r.uploaded@, r.queue@) =~= self@);
        r
    }
}

/// The rows of the tables.
pub struct DatabaseRows {
    pub config: Vec<(String, String)>,
    pub folders: Vec<WatchedFolder>,
    pub uploaded: Vec<UploadedFile>,
    pub queue: Vec<QueueEntry>,
}

/// The tables that hold these rows.
pub open spec fn loaded_tables(
    config: Seq<(String, String)>,
    folders: Seq<WatchedFolder>,
    uploaded: Seq<UploadedFile>,
    queue: Seq<QueueEntry>,
) -> Tables {
    Tables {
        config: config.map_values(|p: (String, String)| (p.0@, p.1@)),
        folders: folder_rows(folders),
        uploaded: uploaded_rows(uploaded),
        queue: queue_rows(queue),
    }
}

// ── Laws ────────────────────────────────────────────────────────────────────

/// Two rows of a valid queue with the same id are the same row.
proof fn lemma_same_id_same_row(t: Tables, i: int, j: int)
    requires
        t.valid(),
        0 <= i < t.queue.len(),
        0 <= j < t.queue.len(),
        t.queue[i].id == t.queue[j].id,
    ensures
        i == j,
{
    assert(t.queue_ids()[i] == t.queue_ids()[j]);
    if i < j {
        assert(t.queue_ids()[i] < t.queue_ids()[j]);
    } else if j < i {
        assert(t.queue_ids()[j] < t.queue_ids()[i]);
    }
}

/// Two workers that claim one after the other never get the same entry.
pub proof fn law_no_entry_is_claimed_twice(
    t: Tables,
    order1: UploadOrder,
    limit1: int,
    first: Seq<QueueRow>,
    order2: UploadOrder,
    limit2: int,
    second: Seq<QueueRow>,
    i: int,
    j: int,
)
    requires
        t.valid(),
        is_claim(t.queue, order1, limit1, first),
        is_claim(after_claim(t.queue, first), order2, limit2, second),
        0 <= i < first.len(),
        0 <= j < second.len(),
    ensures
        first[i].id != second[j].id,
{
    let q1 = after_claim(t.queue, first);
    assert(q1.contains(second[j]));
    let n = choose|n: int| 0 <= n < q1.len() && q1[n] == second[j];
    assert(t.queue.contains(first[i]));
    let m = choose|m: int| 0 <= m < t.queue.len() && t.queue[m] == first[i];
    assert(q1[n].id == t.queue[n].id);
    if first[i].id == second[j].id {
        lemma_same_id_same_row(t, n, m);
        assert(first.contains(t.queue[n]));
        assert(q1[n].status is Uploading);
    }
}

/// The claimed entries are determined by the queue, the order and the limit.
pub proof fn law_claim_is_unique(
    t: Tables,
    order: UploadOrder,
    limit: int,
    a: Seq<QueueRow>,
    b: Seq<QueueRow>,
)
    requires
        t.valid(),
        is_claim(t.queue, order, limit, a),
        is_claim(t.queue, order, limit, b),
    ensures
        a == b,
{
    if a.len() <= b.len() {
        lemma_claim_prefix(t, order, limit, a, b, a.len() as int);
        if a.len() < b.len() {
            let x = b[a.len() as int];
            assert(limit < 0 || a.len() < limit);
            assert(t.queue.contains(x));
            let k = choose|k: int| 0 <= k < t.queue.len() && t.queue[k] == x;
            assert(a.contains(t.queue[k]));
            let m = choose|m: int| 0 <= m < a.len() && a[m] == x;
            assert(b[m] == x);
            assert(claimed_before(order, b[m], b[a.len() as int]));
            text::lemma_text_before_irreflexive(x.queued_at);
        }
    } else {
        lemma_claim_prefix(t, order, limit, b, a, b.len() as int);
        let x = a[b.len() as int];
        assert(limit < 0 || b.len() < limit);
        assert(t.queue.contains(x));
        let k = choose|k: int| 0 <= k < t.queue.len() && t.queue[k] == x;
        assert(b.contains(t.queue[k]));
        let m = choose|m: int| 0 <= m < b.len() && b[m] == x;
        assert(a[m] == x);
        assert(claimed_before(order, a[m], a[b.len() as int]));
        text::lemma_text_before_irreflexive(x.queued_at);
    }
    assert(a =~= b);
}

/// Claiming order is antisymmetric on different rows.
proof fn lemma_claimed_before_asymmetric(order: UploadOrder, x: QueueRow, y: QueueRow)
    requires
        claimed_before(order, x, y),
    ensures
        !claimed_before(order, y, x),
{
    if claimed_before(order, y, x) {
        if x.queued_at == y.queued_at {
            text::lemma_text_before_irreflexive(x.queued_at);
        } else {
            text::lemma_text_before_transitive(x.queued_at, y.queued_at, x.queued_at);
            text::lemma_text_before_irreflexive(x.queued_at);
        }
    }
}

proof fn lemma_claim_prefix(
    t: Tables,
    order: UploadOrder,
    limit: int,
    a: Seq<QueueRow>,
    b: Seq<QueueRow>,
    n: int,
)
    requires
        t.valid(),
        is_claim(t.queue, order, limit, a),
        is_claim(t.queue, order, limit, b),
        0 <= n <= a.len(),
        a.len() <= b.len(),
    ensures
        forall|i: int| 0 <= i < n ==> a[i] == #[trigger] b[i],
    decreases n,
{
    if n > 0 {
        lemma_claim_prefix(t, order, limit, a, b, n - 1);
        let x = a[n - 1];
        let y = b[n - 1];
        assert(t.queue.contains(x));
        assert(t.queue.contains(y));
        let kx = choose|k: int| 0 <= k < t.queue.len() && t.queue[k] == x;
        let ky = choose|k: int| 0 <= k < t.queue.len() && t.queue[k] == y;
        if x != y {
            if b.contains(x) {
                let m = choose|m: int| 0 <= m < b.len() && b[m] == x;
                if m < n - 1 {
                    assert(a[m] == b[m]);
                    assert(claimed_before(order, a[m], a[n - 1]));
                    lemma_claimed_before_asymmetric(order, a[m], a[n - 1]);
                } else {
                    assert(claimed_before(order, b[n - 1], b[m]));
                }
            } else {
                assert(claimed_before(order, b[n - 1], t.queue[kx]));
            }
            assert(claimed_before(order, y, x));
            if a.contains(y) {
                let m = choose|m: int| 0 <= m < a.len() && a[m] == y;
                if m < n - 1 {
                    assert(a[m] == b[m]);
                    assert(claimed_before(order, b[m], b[n - 1]));
                    lemma_claimed_before_asymmetric(order, b[m], b[n - 1]);
                } else {
                    assert(claimed_before(order, a[n - 1], a[m]));
                }
            } else {
                assert(claimed_before(order, a[n - 1], t.queue[ky]));
            }
            lemma_claimed_before_asymmetric(order, y, x);
        }
    }
}

/// Every entry has exactly one status: the four counts add up to the number of
/// entries.
pub proof fn law_stats_cover_the_queue(q: Seq<QueueRow>)
    ensures
        status_count(q, QueueStatus::Pending) + status_count(q, QueueStatus::Uploading)
            + status_count(q, QueueStatus::Failed) + status_count(q, QueueStatus::Completed)
            == q.len(),
{
    lemma_status_count_bound(q);
}

/// A crash loses no entry: after the reset at start-up every entry is still
/// there, the ones that were being uploaded wait to be claimed again, and no
/// entry is left that no worker would ever claim.
pub proof fn law_reset_recovers_every_upload(q: Seq<QueueRow>)
    ensures
        after_reset(q).len() == q.len(),
        forall|i: int|
            0 <= i < q.len() ==> (#[trigger] after_reset(q)[i]).id == q[i].id && after_reset(
                q,
            )[i].file_path == q[i].file_path && after_reset(q)[i].retry_count == q[i].retry_count,
        forall|i: int|
            0 <= i < q.len() && q[i].status is Uploading ==> (
            #[trigger] after_reset(q)[i]).status is Pending,
        status_count(after_reset(q), QueueStatus::Uploading) == 0,
        status_count(after_reset(q), QueueStatus::Pending) == status_count(q, QueueStatus::Pending)
            + status_count(q, QueueStatus::Uploading),
    decreases q.len(),
{
    if q.len() > 0 {
        law_reset_recovers_every_upload(q.drop_last());
        assert(after_reset(q).drop_last() =~= after_reset(q.drop_last()));
        assert(after_reset(q).last().status == if q.last().status is Uploading {
            QueueStatus::Pending
        } else {
            q.last().status
        });
    }
}

/// Purging removes the completed entries and no other.
pub proof fn law_purge_keeps_unfinished_entries(q: Seq<QueueRow>)
    ensures
        status_count(after_purge(q), QueueStatus::Completed) == 0,
        status_count(after_purge(q), QueueStatus::Pending) == status_count(q, QueueStatus::Pending),
        status_count(after_purge(q), QueueStatus::Uploading) == status_count(
            q,
            QueueStatus::Uploading,
        ),
        status_count(after_purge(q), QueueStatus::Failed) == status_count(q, QueueStatus::Failed),
    decreases q.len(),
{
    reveal(Seq::filter);
    let keep = |r: QueueRow| !(r.status is Completed);
    if q.len() > 0 {
        law_purge_keeps_unfinished_entries(q.drop_last());
        let d = after_purge(q.drop_last());
        if keep(q.last()) {
            assert(after_purge(q) =~= d.push(q.last()));
            lemma_status_count_push(d, q.last(), QueueStatus::Completed);
            lemma_status_count_push(d, q.last(), QueueStatus::Pending);
            lemma_status_count_push(d, q.last(), QueueStatus::Uploading);
            lemma_status_count_push(d, q.last(), QueueStatus::Failed);
        } else {
            assert(after_purge(q) =~= d);
        }
    }
}

/// What was recorded as uploaded is found again, by its hash and by its path,
/// size and modification time; and recording adds no other hit.
pub proof fn law_recorded_upload_is_found(
    t: Tables,
    r: UploadedRow,
    hash: Seq<char>,
    path: Seq<char>,
    size: i64,
    mtime: i64,
)
    requires
        record_result(t) is Ok,
    ensures
        hash_recorded(after_record(t, r), r.file_hash),
        file_recorded(after_record(t, r), r.file_path, r.file_size, r.file_mtime),
        hash_recorded(after_record(t, r), hash) <==> hash_recorded(t, hash) || hash == r.file_hash,
        file_recorded(after_record(t, r), path, size, mtime) <==> file_recorded(
            t,
            path,
            size,
            mtime,
        ) || (path == r.file_path && size == r.file_size && mtime == r.file_mtime),
{
    let u = after_record(t, r);
    let n = t.uploaded.len() as int;
    assert(u.uploaded[n].file_hash == r.file_hash);
    assert forall|i: int| 0 <= i < n implies u.uploaded[i] == t.uploaded[i] by {}
    if hash_recorded(t, hash) {
        let i = choose|i: int|
            0 <= i < t.uploaded.len() && (#[trigger] t.uploaded[i]).file_hash == hash;
        assert(u.uploaded[i].file_hash == hash);
    }
    if hash_recorded(u, hash) {
        let i = choose|i: int|
            0 <= i < u.uploaded.len() && (#[trigger] u.uploaded[i]).file_hash == hash;
        if i < n {
            assert(t.uploaded[i].file_hash == hash);
        }
    }
    if file_recorded(t, path, size, mtime) {
        let i = choose|i: int|
            0 <= i < t.uploaded.len() && (#[trigger] t.uploaded[i]).file_path == path
                && t.uploaded[i].file_size == size && t.uploaded[i].file_mtime == mtime;
        assert(u.uploaded[i].file_path == path);
    }
    if file_recorded(u, path, size, mtime) {
        let i = choose|i: int|
            0 <= i < u.uploaded.len() && (#[trigger] u.uploaded[i]).file_path == path
                && u.uploaded[i].file_size == size && u.uploaded[i].file_mtime == mtime;
        if i < n {
            assert(t.uploaded[i].file_path == path);
        }
    }
}

/// A file that was queued waits to be claimed: it is the last row, pending,
/// with no retries.
pub proof fn law_queued_file_is_pending(
    t: Tables,
    file_path: Seq<char>,
    file_hash: Option<Seq<char>>,
    file_size: Option<i64>,
    folder_id: Option<i64>,
    now: Seq<char>,
)
    requires
        enqueue_result(t, folder_id) is Ok,
    ensures
        ({
            let u = after_enqueue(t, file_path, file_hash, file_size, folder_id, now);
            &&& u.queue.len() == t.queue.len() + 1
            &&& u.queue.last().id == enqueue_result(t, folder_id)->Ok_0
            &&& u.queue.last().file_path == file_path
            &&& u.queue.last().status is Pending
            &&& u.queue.last().retry_count == 0
            &&& status_count(u.queue, QueueStatus::Pending) == status_count(
                t.queue,
                QueueStatus::Pending,
            ) + 1
        }),
{
    let u = after_enqueue(t, file_path, file_hash, file_size, folder_id, now);
    assert(u.queue.drop_last() =~= t.queue);
}

/// Migrations run in order, each once, and end at the latest schema.
pub proof fn law_migrations_end_at_latest(current: u32)
    ensures
        forall|i: int|
            0 <= i < pending_migrations(current).len() ==> #[trigger] pending_migrations(current)[i]
                > current,
        forall|i: int, j: int|
            0 <= i < j < pending_migrations(current).len() ==> #[trigger] pending_migrations(
                current,
            )[i] < #[trigger] pending_migrations(current)[j],
        current < LATEST_SCHEMA ==> pending_migrations(current).len() > 0 && pending_migrations(
            current,
        ).last() == LATEST_SCHEMA,
        current >= LATEST_SCHEMA ==> pending_migrations(current).len() == 0,
{
}

/// The reset at start-up changes nothing of an entry but its status and message,
/// and nothing at all of an entry that was not being uploaded.
pub proof fn law_reset_keeps_what_is_known_of_a_file(q: Seq<QueueRow>, i: int)
    requires
        0 <= i < q.len(),
    ensures
        ({
            let r = after_reset(q)[i];
            &&& r.id == q[i].id
            &&& r.file_path == q[i].file_path
            &&& r.file_hash == q[i].file_hash
            &&& r.file_size == q[i].file_size
            &&& r.folder_id == q[i].folder_id
            &&& r.retry_count == q[i].retry_count
            &&& r.queued_at == q[i].queued_at
            &&& r.completed_at == q[i].completed_at
            &&& q[i].status is Uploading ==> r.status is Pending && r.error_message is None
            &&& !(q[i].status is Uploading) ==> r == q[i]
        }),
        after_reset(q).len() == q.len(),
{
}

/// Claiming entries changes nothing but the status of those that are claimed.
pub proof fn law_claim_changes_only_the_status(q: Seq<QueueRow>, claimed: Seq<QueueRow>, i: int)
    requires
        0 <= i < q.len(),
    ensures
        ({
            let r = after_claim(q, claimed)[i];
            &&& r.id == q[i].id
            &&& r.file_path == q[i].file_path
            &&& r.file_hash == q[i].file_hash
            &&& r.file_size == q[i].file_size
            &&& r.folder_id == q[i].folder_id
            &&& r.retry_count == q[i].retry_count
            &&& r.error_message == q[i].error_message
            &&& r.queued_at == q[i].queued_at
            &&& r.completed_at == q[i].completed_at
            &&& claimed.contains(q[i]) ==> r.status is Uploading
            &&& !claimed.contains(q[i]) ==> r == q[i]
        }),
        after_claim(q, claimed).len() == q.len(),
{
}

/// A worker gets pending entries only, no more than it asked for, and all of them
/// where they are not more than that.
pub proof fn law_claim_takes_what_it_may(
    q: Seq<QueueRow>,
    order: UploadOrder,
    limit: int,
    r: Seq<QueueRow>,
    k: int,
)
    requires
        is_claim(q, order, limit, r),
        0 <= k < q.len(),
        q[k].status is Pending,
    ensures
        limit >= 0 ==> r.len() <= limit,
        limit < 0 || r.len() < limit ==> r.contains(q[k]),
        limit != 0 ==> r.len() > 0,
        forall|i: int| 0 <= i < r.len() ==> q.contains(#[trigger] r[i]) && r[i].status is Pending,
{
    if r.len() == 0 && limit != 0 {
        assert(r.contains(q[k]));
    }
}

/// Entries are claimed from the newest on or from the oldest on, as the order
/// says, and among those of one time by their ids: an entry that comes later, or
/// is left waiting, was not queued on the wrong side of one that is claimed.
pub proof fn law_claims_follow_the_order(
    q: Seq<QueueRow>,
    order: UploadOrder,
    limit: int,
    r: Seq<QueueRow>,
    i: int,
    x: QueueRow,
)
    requires
        is_claim(q, order, limit, r),
        0 <= i < r.len(),
        (exists|j: int| i < j < r.len() && #[trigger] r[j] == x) || (q.contains(x)
            && x.status is Pending && !r.contains(x)),
    ensures
        order is NewestFirst ==> !text::text_before(r[i].queued_at, x.queued_at),
        order is OldestFirst ==> !text::text_before(x.queued_at, r[i].queued_at),
        r[i].queued_at == x.queued_at ==> r[i].id < x.id,
{
    if q.contains(x) && !r.contains(x) {
        let k = choose|k: int| 0 <= k < q.len() && q[k] == x;
        assert(claimed_before(order, r[i], q[k]));
    }
    lemma_claimed_before_asymmetric(order, r[i], x);
    text::lemma_text_before_irreflexive(x.queued_at);
}

/// A status update concerns the one entry with the id. It is given the status
/// and the message; the time is noted where it is over with the entry, a failure
/// and a return to the queue count as a try, and nothing else changes.
pub proof fn law_status_update_is_exact(
    q: Seq<QueueRow>,
    id: i64,
    status: QueueStatus,
    error: Option<Seq<char>>,
    now: Seq<char>,
    i: int,
)
    requires
        0 <= i < q.len(),
    ensures
        ({
            let r = after_status(q, id, status, error, now)[i];
            let counted = status is Failed || status is Pending;
            &&& r.id == q[i].id
            &&& r.file_path == q[i].file_path
            &&& r.file_hash == q[i].file_hash
            &&& r.file_size == q[i].file_size
            &&& r.folder_id == q[i].folder_id
            &&& r.queued_at == q[i].queued_at
            &&& q[i].id != id ==> r == q[i]
            &&& q[i].id == id ==> r.status == status && r.error_message == error
            &&& q[i].id == id && (status is Completed || status is Failed) ==> r.completed_at
                == Some(now)
            &&& q[i].id == id && (status is Pending || status is Uploading)
                ==> r.completed_at is None
            &&& q[i].id == id && !counted ==> r.retry_count == q[i].retry_count
            &&& q[i].id == id && counted && q[i].retry_count < i32::MAX ==> r.retry_count
                == q[i].retry_count + 1
            &&& q[i].id == id && q[i].retry_count == i32::MAX ==> r.retry_count == i32::MAX
        }),
        after_status(q, id, status, error, now).len() == q.len(),
{
}

/// A failed entry is queued again while it has retries left, with nothing changed
/// but its status, message and finishing time; every other entry stays as it is.
pub proof fn law_requeue_is_exact(q: Seq<QueueRow>, max_retries: i32, i: int)
    requires
        0 <= i < q.len(),
    ensures
        ({
            let r = after_requeue(q, max_retries)[i];
            &&& r.id == q[i].id
            &&& r.file_path == q[i].file_path
            &&& r.file_hash == q[i].file_hash
            &&& r.file_size == q[i].file_size
            &&& r.folder_id == q[i].folder_id
            &&& r.retry_count == q[i].retry_count
            &&& r.queued_at == q[i].queued_at
            &&& q[i].status is Failed && q[i].retry_count < max_retries ==> r.status is Pending
                && r.error_message is None && r.completed_at is None
            &&& !(q[i].status is Failed) || q[i].retry_count >= max_retries ==> r == q[i]
        }),
        after_requeue(q, max_retries).len() == q.len(),
{
}

/// Purging keeps the entries that are not completed, as they are and in order.
pub proof fn law_purge_keeps_the_order(q: Seq<QueueRow>, r: QueueRow)
    ensures
        after_purge(q).contains(r) <==> q.contains(r) && !(r.status is Completed),
        after_purge(q.push(r)) == if r.status is Completed {
            after_purge(q)
        } else {
            after_purge(q).push(r)
        },
        after_purge(Seq::empty()) == Seq::<QueueRow>::empty(),
{
    let keep = |r: QueueRow| !(r.status is Completed);
    text::lemma_filter_keeps(q, keep, r);
    q.lemma_filter_push(r, keep);
    reveal(Seq::filter);
}

/// A new row gets an id that no row of the table has.
pub proof fn law_new_id_is_free(ids: Seq<i64>, i: int)
    requires
        ids_ordered(ids),
    ensures
        next_id(ids) >= 1,
        0 <= i < ids.len() ==> ids[i] < next_id(ids),
        ids.len() > 0 ==> next_id(ids) == ids.last() + 1,
        ids.len() == 0 ==> next_id(ids) == 1,
{
    if ids.len() > 0 {
        assert(0 < ids[ids.len() - 1]);
        if 0 <= i < ids.len() - 1 {
            assert(ids[i] < ids[ids.len() - 1]);
        }
    }
}

/// Queueing a file adds one entry, with what is known of the file, and changes
/// nothing else; it is refused only where the folder is not there or the ids are
/// used up.
pub proof fn law_queueing_is_exact(
    t: Tables,
    file_path: Seq<char>,
    file_hash: Option<Seq<char>>,
    file_size: Option<i64>,
    folder_id: Option<i64>,
    now: Seq<char>,
)
    ensures
        ({
            let u = after_enqueue(t, file_path, file_hash, file_size, folder_id, now);
            let r = u.queue.last();
            &&& u.config == t.config && u.folders == t.folders && u.uploaded == t.uploaded
            &&& enqueue_result(t, folder_id) is Err ==> u == t
            &&& enqueue_result(t, folder_id) matches Ok(id) ==> {
                &&& u.queue.drop_last() == t.queue && u.queue.len() == t.queue.len() + 1
                &&& r.id == id && id == next_id(t.queue_ids())
                &&& r.file_path == file_path && r.file_hash == file_hash
                &&& r.file_size == file_size && r.folder_id == folder_id
                &&& r.status is Pending && r.retry_count == 0 && r.queued_at == now
                &&& r.error_message is None && r.completed_at is None
            }
        }),
        enqueue_result(t, folder_id) == Err::<i64, DbError>(DbError::ForeignKey) <==> (
        folder_id matches Some(f) && forall|i: int|
            0 <= i < t.folders.len() ==> (#[trigger] t.folders[i]).id != f),
        folder_id is None && next_id(t.queue_ids()) <= i64::MAX ==> enqueue_result(
            t,
            folder_id,
        ) is Ok,
        enqueue_result(t, folder_id) is Err ==> enqueue_result(t, folder_id)->Err_0
            == DbError::ForeignKey || next_id(t.queue_ids()) > i64::MAX,
        enqueue_result(t, folder_id) is Ok ==> next_id(t.queue_ids()) <= i64::MAX,
{
    let u = after_enqueue(t, file_path, file_hash, file_size, folder_id, now);
    if enqueue_result(t, folder_id) is Ok {
        assert(u.queue.drop_last() =~= t.queue);
    }
}

/// A folder that is added is watched at once: enabled, natively, its files kept,
/// without albums and patterns, placeholders left out. Nothing else changes, and
/// it is refused only where its path is taken or the ids are used up.
pub proof fn law_added_folder_is_watched(
    t: Tables,
    path: Seq<char>,
    label: Option<Seq<char>>,
    auto_added: bool,
    now: Seq<char>,
)
    ensures
        ({
            let u = after_add_folder(t, path, label, auto_added, now);
            let r = u.folders.last();
            &&& u.config == t.config && u.queue == t.queue && u.uploaded == t.uploaded
            &&& add_folder_result(t, path) is Err ==> u == t
            &&& add_folder_result(t, path) matches Ok(id) ==> {
                &&& u.folders.drop_last() == t.folders && u.folders.len() == t.folders.len() + 1
                &&& r.id == id && id == next_id(t.folder_ids())
                &&& r.path == path && r.label == label && r.auto_added == auto_added
                &&& r.enabled && r.watch_mode is Native && r.poll_interval_secs == 30
                &&& r.album_mode is NoAlbum && r.album_name is None
                &&& r.include_patterns is None && r.exclude_patterns is None
                &&& r.post_upload is Keep && r.ignore_online_files
                &&& r.created_at == now && r.updated_at == now
            }
        }),
        add_folder_result(t, path) == Err::<i64, DbError>(DbError::DuplicatePath) <==> exists|i: int|
            0 <= i < t.folders.len() && (#[trigger] t.folders[i]).path == path,
        add_folder_result(t, path) is Ok <==> (forall|i: int|
            0 <= i < t.folders.len() ==> (#[trigger] t.folders[i]).path != path) && next_id(
            t.folder_ids(),
        ) <= i64::MAX,
{
    let u = after_add_folder(t, path, label, auto_added, now);
    if add_folder_result(t, path) is Ok {
        assert(u.folders.drop_last() =~= t.folders);
    }
}

/// New settings concern the one folder with the id. Its id, path, origin and time
/// of creation stay, and so do all other folders.
pub proof fn law_settings_concern_one_folder(
    v: Seq<FolderRow>,
    id: i64,
    s: FolderSettings,
    now: Seq<char>,
    i: int,
)
    requires
        0 <= i < v.len(),
    ensures
        ({
            let r = after_update_folder(v, id, s, now)[i];
            &&& v[i].id != id ==> r == v[i]
            &&& r.id == v[i].id && r.path == v[i].path
            &&& r.auto_added == v[i].auto_added && r.created_at == v[i].created_at
            &&& v[i].id == id ==> {
                &&& r.label == s.label.deep_view() && r.enabled == s.enabled
                &&& r.watch_mode == s.watch_mode
                &&& r.poll_interval_secs == s.poll_interval_secs
                &&& r.album_mode == s.album_mode && r.album_name == s.album_name.deep_view()
                &&& r.include_patterns == s.include_patterns.deep_view()
                &&& r.exclude_patterns == s.exclude_patterns.deep_view()
                &&& r.post_upload == s.post_upload
                &&& r.ignore_online_files == s.ignore_online_files
                &&& r.updated_at == now
            }
        }),
        after_update_folder(v, id, s, now).len() == v.len(),
{
}

/// Removing a folder takes out the row with the id and no other, and touches
/// neither the queue nor the records of uploads; a folder that queue entries
/// refer to stays.
pub proof fn law_removing_a_folder_is_exact(t: Tables, id: i64, r: FolderRow, k: int)
    ensures
        after_remove_folder(t, id).queue == t.queue,
        after_remove_folder(t, id).uploaded == t.uploaded,
        after_remove_folder(t, id).config == t.config,
        0 <= k < t.queue.len() && t.queue[k].folder_id == Some(id) ==> after_remove_folder(t, id)
            == t,
        r.id != id ==> (after_remove_folder(t, id).folders.contains(r) <==> t.folders.contains(r)),
        (forall|i: int|
            0 <= i < t.queue.len() ==> (#[trigger] t.queue[i]).folder_id != Some(id))
            ==> !after_remove_folder(t, id).has_folder(id),
{
    let keep = |r: FolderRow| r.id != id;
    text::lemma_filter_keeps(t.folders, keep, r);
    let u = after_remove_folder(t, id);
    if u.has_folder(id) && !t.refers_to_folder(id) {
        let i = choose|i: int| 0 <= i < u.folders.len() && (#[trigger] u.folders[i]).id == id;
        text::lemma_filter_keeps(t.folders, keep, u.folders[i]);
        assert(u.folders.contains(u.folders[i]));
    }
}

/// Recording an upload adds one record, as it is given, and changes nothing else.
pub proof fn law_recording_is_exact(
    t: Tables,
    file_path: Seq<char>,
    file_hash: Seq<char>,
    file_size: i64,
    file_mtime: i64,
    immich_asset_id: Option<Seq<char>>,
    device_asset_id: Seq<char>,
    server_url: Seq<char>,
    now: Seq<char>,
)
    ensures
        ({
            let u = after_record(
                t,
                upload_record(
                    file_path,
                    file_hash,
                    file_size,
                    file_mtime,
                    immich_asset_id,
                    device_asset_id,
                    server_url,
                    now,
                ),
            );
            let r = u.uploaded.last();
            &&& u.config == t.config && u.folders == t.folders && u.queue == t.queue
            &&& next_id(t.uploaded_ids()) > i64::MAX ==> u == t && record_result(t)
                == Err::<i64, DbError>(DbError::IdsExhausted)
            &&& next_id(t.uploaded_ids()) <= i64::MAX ==> {
                &&& record_result(t) == Ok::<i64, DbError>(r.id)
                &&& r.id == next_id(t.uploaded_ids())
                &&& u.uploaded.drop_last() == t.uploaded
                &&& u.uploaded.len() == t.uploaded.len() + 1
                &&& r.file_path == file_path && r.file_hash == file_hash
                &&& r.file_size == file_size && r.file_mtime == file_mtime
                &&& r.immich_asset_id == immich_asset_id
                &&& r.device_asset_id == device_asset_id
                &&& r.server_url == server_url && r.uploaded_at == now
            }
        }),
{
    let rec = upload_record(
        file_path,
        file_hash,
        file_size,
        file_mtime,
        immich_asset_id,
        device_asset_id,
        server_url,
        now,
    );
    assert(after_record(t, rec).uploaded.drop_last() =~= t.uploaded || record_result(t) is Err);
}

/// The list of recent entries runs from the newest on, and holds as many as were
/// asked for, or all.
pub proof fn law_recent_entries_run_backwards(q: Seq<QueueRow>, limit: int, i: int)
    ensures
        recent_rows(q, limit).len() == if limit < 0 || limit > q.len() {
            q.len() as int
        } else {
            limit
        },
        0 <= i < recent_rows(q, limit).len() ==> recent_rows(q, limit)[i] == q[q.len() - 1 - i],
{
}

/// An entry counts for its own status and for no other.
pub proof fn law_entries_are_counted_by_status(q: Seq<QueueRow>, r: QueueRow, s: QueueStatus)
    ensures
        status_count(Seq::empty(), s) == 0,
        status_count(q.push(r), s) == status_count(q, s) + if r.status == s {
            1int
        } else {
            0int
        },
{
    lemma_status_count_push(q, r, s);
}

/// A setting has the value that stands beside its key, and none where the key is
/// not there.
pub proof fn law_setting_has_its_value(t: Tables, key: Seq<char>, k: int)
    requires
        t.valid(),
    ensures
        0 <= k < t.config.len() && t.config[k].0 == key ==> t.config_value(key) == Some(
            t.config[k].1,
        ),
        (forall|i: int| 0 <= i < t.config.len() ==> (#[trigger] t.config[i]).0 != key)
            ==> t.config_value(key) is None,
{
    if 0 <= k < t.config.len() {
        lemma_config_at(t, k);
    }
}

/// A file counts as uploaded where a record has its hash, or its path, size and
/// modification time together; one that differs in any of these does not.
pub proof fn law_upload_is_known_by_its_record(
    t: Tables,
    k: int,
    hash: Seq<char>,
    path: Seq<char>,
    size: i64,
    mtime: i64,
)
    ensures
        0 <= k < t.uploaded.len() ==> hash_recorded(t, t.uploaded[k].file_hash),
        0 <= k < t.uploaded.len() ==> file_recorded(
            t,
            t.uploaded[k].file_path,
            t.uploaded[k].file_size,
            t.uploaded[k].file_mtime,
        ),
        (forall|i: int| 0 <= i < t.uploaded.len() ==> (#[trigger] t.uploaded[i]).file_hash != hash)
            ==> !hash_recorded(t, hash),
        (forall|i: int|
            0 <= i < t.uploaded.len() ==> (#[trigger] t.uploaded[i]).file_path != path
                || t.uploaded[i].file_size != size || t.uploaded[i].file_mtime != mtime)
            ==> !file_recorded(t, path, size, mtime),
{
}

/// Texts that no row is written with read as what a folder has at first, and as
/// pending; each other value has one text of its own.
pub proof fn law_unknown_codes_read_as_the_default(s: Seq<char>)
    ensures
        WatchMode::decoded(s) is Poll <==> s == WatchMode::Poll.code(),
        AlbumMode::decoded(s) is Folder <==> s == AlbumMode::Folder.code(),
        AlbumMode::decoded(s) is Subfolder <==> s == AlbumMode::Subfolder.code(),
        AlbumMode::decoded(s) is Date <==> s == AlbumMode::Date.code(),
        AlbumMode::decoded(s) is Fixed <==> s == AlbumMode::Fixed.code(),
        PostUpload::decoded(s) is Trash <==> s == PostUpload::Trash.code(),
        PostUpload::decoded(s) is Delete <==> s == PostUpload::Delete.code(),
        QueueStatus::decoded(s) is Uploading <==> s == QueueStatus::Uploading.code(),
        QueueStatus::decoded(s) is Failed <==> s == QueueStatus::Failed.code(),
        QueueStatus::decoded(s) is Completed <==> s == QueueStatus::Completed.code(),
        UploadOrder::decoded(s) is OldestFirst <==> s == "oldest_first"@,
{
    law_codes_read_back(
        WatchMode::Poll,
        AlbumMode::Folder,
        PostUpload::Trash,
        QueueStatus::Uploading,
    );
    law_codes_read_back(
        WatchMode::Poll,
        AlbumMode::Subfolder,
        PostUpload::Delete,
        QueueStatus::Failed,
    );
    law_codes_read_back(
        WatchMode::Poll,
        AlbumMode::Date,
        PostUpload::Delete,
        QueueStatus::Completed,
    );
    law_codes_read_back(
        WatchMode::Poll,
        AlbumMode::Fixed,
        PostUpload::Delete,
        QueueStatus::Completed,
    );
}

/// The directory text of a folder ends in a separator, and is the folder's path,
/// a separator added where it has none, without the extended-length prefix.
pub proof fn law_folder_prefix_ends_in_a_separator(folder: Seq<char>)
    ensures
        folder_prefix(folder).len() > 0,
        folder_prefix(folder).last() == '\\' || folder_prefix(folder).last() == '/',
        folder_prefix(folder) == text::without_prefix(folder, EXTENDED_PREFIX@) || folder_prefix(
            folder,
        ) == text::without_prefix(folder, EXTENDED_PREFIX@).push('\\'),
        folder_prefix(EXTENDED_PREFIX@ + folder) == if folder.len() > 0 && (folder.last() == '\\'
            || folder.last() == '/') {
            folder
        } else {
            folder.push('\\')
        },
{
    text::law_prefix_is_removed(folder, EXTENDED_PREFIX@);
}

/// Every file below a folder lies inside it, at any depth, however the letters of
/// the path are written, and in either spelling of path and folder.
pub proof fn law_file_below_is_inside(folder: Seq<char>, path: Seq<char>, tail: Seq<char>)
    requires
        text::same_ignoring_ascii_case(path, folder_prefix(folder) + tail)
            || text::same_ignoring_ascii_case(path, EXTENDED_PREFIX@ + folder_prefix(folder) + tail),
    ensures
        inside_folder(path, folder),
{
    let prefix = folder_prefix(folder);
    let a = text::ascii_lowered(path);
    if text::same_ignoring_ascii_case(path, prefix + tail) {
        assert(text::ascii_lowered(prefix + tail) =~= text::ascii_lowered(prefix)
            + text::ascii_lowered(tail));
        assert(a.take(prefix.len() as int) =~= text::ascii_lowered(prefix));
    } else {
        let long = EXTENDED_PREFIX@ + prefix;
        assert(text::ascii_lowered(long + tail) =~= text::ascii_lowered(long)
            + text::ascii_lowered(tail));
        assert(a.take(long.len() as int) =~= text::ascii_lowered(long));
    }
}

/// What lies inside a folder has the folder's directory text, with its separator,
/// at its front: a folder whose name only begins the same is another folder.
pub proof fn law_inside_starts_with_the_folder(folder: Seq<char>, path: Seq<char>)
    requires
        inside_folder(path, folder),
    ensures
        ({
            let p = folder_prefix(folder);
            let long = EXTENDED_PREFIX@ + p;
            ||| path.len() >= p.len() && text::same_ignoring_ascii_case(
                path.take(p.len() as int),
                p,
            )
            ||| path.len() >= long.len() && text::same_ignoring_ascii_case(
                path.take(long.len() as int),
                long,
            )
        }),
{
    let p = folder_prefix(folder);
    let long = EXTENDED_PREFIX@ + p;
    if text::ascii_lowered(p).is_prefix_of(text::ascii_lowered(path)) {
        assert(text::ascii_lowered(path.take(p.len() as int)) =~= text::ascii_lowered(path).take(
            p.len() as int,
        ));
    } else {
        assert(text::ascii_lowered(path.take(long.len() as int)) =~= text::ascii_lowered(path).take(
            long.len() as int,
        ));
    }
}

/// The uploaded files inside a folder are those of the records whose path lies
/// inside it.
pub proof fn law_uploaded_files_are_found_by_folder(
    v: Seq<UploadedRow>,
    folder: Seq<char>,
    path: Seq<char>,
)
    ensures
        uploaded_inside(v, folder).contains(path) <==> inside_folder(path, folder) && exists|i: int|
            0 <= i < v.len() && (#[trigger] v[i]).file_path == path,
{
    let all = v.map_values(|r: UploadedRow| r.file_path);
    text::lemma_filter_keeps(all, |p: Seq<char>| inside_folder(p, folder), path);
    if all.contains(path) {
        let i = choose|i: int| 0 <= i < all.len() && all[i] == path;
        assert(v[i].file_path == path);
    }
    if exists|i: int| 0 <= i < v.len() && (#[trigger] v[i]).file_path == path {
        let i = choose|i: int| 0 <= i < v.len() && (#[trigger] v[i]).file_path == path;
        assert(all[i] == path);
    }
}

/// The version of the schema is the number that the table records, and 0 where it
/// records none or what it records is no number.
pub proof fn law_schema_version_is_read(t: Tables, n: u32)
    ensures
        t.config_value("schema_version"@) == Some(text::decimal(n as nat)) ==> schema_version(t)
            == n,
        t.config_value("schema_version"@) is None ==> schema_version(t) == 0,
        t.config_value("schema_version"@) matches Some(v) ==> text::parsed_u32(v) is None
            ==> schema_version(t) == 0,
{
    text::lemma_decimal_reads_back(n);
}

/// Every migration after the current version is run: the next one first, and each
/// followed by its successor.
pub proof fn law_no_migration_is_skipped(current: u32, i: int)
    requires
        0 <= i < pending_migrations(current).len(),
    ensures
        pending_migrations(current)[i] == current + 1 + i,
        LATEST_SCHEMA == 3,
{
}

/// The contents of a row are those of its fields, each as it is, and a list of
/// rows has the contents of each, in order.
pub proof fn law_rows_hold_their_fields(
    e: QueueEntry,
    u: UploadedFile,
    q: Seq<QueueEntry>,
    i: int,
)
    ensures
        e@.id == e.id && e@.file_path == e.file_path@ && e@.file_size == e.file_size,
        e@.file_hash == text::opt_text(e.file_hash) && e@.folder_id == e.folder_id,
        e@.status == e.status && e@.retry_count == e.retry_count,
        e@.error_message == text::opt_text(e.error_message) && e@.queued_at == e.queued_at@,
        e@.completed_at == text::opt_text(e.completed_at),
        u@.id == u.id && u@.file_path == u.file_path@ && u@.file_hash == u.file_hash@,
        u@.file_size == u.file_size && u@.file_mtime == u.file_mtime,
        u@.immich_asset_id == text::opt_text(u.immich_asset_id),
        u@.device_asset_id == u.device_asset_id@ && u@.uploaded_at == u.uploaded_at@,
        u@.server_url == u.server_url@,
        queue_rows(q).len() == q.len(),
        0 <= i < q.len() ==> queue_rows(q)[i] == q[i]@,
{
}

/// The contents of a watched folder are those of its fields, each as it is, and a
/// list of folders has the contents of each, in order.
pub proof fn law_folder_rows_hold_their_fields(f: WatchedFolder, v: Seq<WatchedFolder>, i: int)
    ensures
        f@.id == f.id && f@.path == f.path@ && f@.label == text::opt_text(f.label),
        f@.enabled == f.enabled && f@.watch_mode == f.watch_mode,
        f@.poll_interval_secs == f.poll_interval_secs && f@.album_mode == f.album_mode,
        f@.album_name == text::opt_text(f.album_name),
        f@.include_patterns == text::opt_text(f.include_patterns),
        f@.exclude_patterns == text::opt_text(f.exclude_patterns),
        f@.post_upload == f.post_upload && f@.ignore_online_files == f.ignore_online_files,
        f@.auto_added == f.auto_added && f@.created_at == f.created_at@,
        f@.updated_at == f.updated_at@,
        folder_rows(v).len() == v.len(),
        0 <= i < v.len() ==> folder_rows(v)[i] == v[i]@,
{
}

} // verus!
