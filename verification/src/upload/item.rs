//! Upload of one queue entry, as a state machine.
//!
//! An [`ItemRun`] says what to do next ([`ItemRun::action`]) and is told what
//! came of it ([`ItemRun::resume`]). Whoever runs it performs the actions: the
//! store updates, the calls to the server and the changes on disk.

use std::time::Duration;

use vstd::prelude::*;
use vstd::utf8;

use crate::clock;
use crate::clock::{format_utc, Timestamp, YEAR_MONTH};
use crate::db;
use crate::db::{AlbumMode, PostUpload, WatchedFolder};
use crate::paths;
use crate::text;
use crate::text::{clone_opt, concat3};
use crate::upload::hasher;
use crate::upload::hasher::hash_bytes;
use crate::upload::metadata::FileMetadata;
use crate::upload::queue;
use crate::upload::queue::{canonical_path_for_storage, QueueEntry};

verus! {

broadcast use vstd::seq::group_seq_axioms;

// ── Server types ────────────────────────────────────────────────────────────

/// Result of a successful upload.
#[derive(Debug)]
pub struct UploadResult {
    /// The asset id given by the server.
    pub asset_id: String,
    /// Whether the server already had the asset.
    pub is_duplicate: bool,
}

/// An item of a bulk duplicate check.
#[derive(Debug)]
pub struct BulkCheckItem {
    /// The asset id given by this device.
    pub id: String,
    /// SHA-1 of the file.
    pub checksum: String,
}

/// The server's answer for one item of a bulk duplicate check.
#[derive(Debug)]
pub struct BulkCheckResult {
    pub id: String,
    /// Whether the asset is on the server.
    pub exists: bool,
    /// The asset id given by the server, where the asset is there.
    pub asset_id: Option<String>,
}

// ── Names ───────────────────────────────────────────────────────────────────

/// The SHA-1 of a text, in hexadecimal.
pub open spec fn text_sha1(s: Seq<char>) -> Seq<char> {
    hasher::sha1_hex(utf8::encode_utf8(s))
}

/// SHA-1 of a text; it stands in for the hash of a file that has none.
pub fn sha1_of_string(s: &str) -> (r: String)
    ensures
        r@ == text_sha1(s@),
        r@.len() == 40,
{
    hash_bytes(s.as_bytes())
}

/// The device's id of an asset: the content hash, or the hash of the path where
/// there is none, and the file name.
pub open spec fn device_asset_id_of(path: Seq<char>, hash: Option<Seq<char>>) -> Seq<char> {
    let h = match hash {
        Some(h) => h,
        None => text_sha1(path),
    };
    let name = match paths::path_file_name(path) {
        Some(n) => n,
        None => "unknown"@,
    };
    h + "-"@ + name
}

/// The device's id of an asset.
pub fn device_asset_id(path: &str, hash: &Option<String>) -> (r: String)
    ensures
        r@ == device_asset_id_of(path@, text::opt_text(*hash)),
{
    let name: String = match paths::file_name(path) {
        Some(n) => n,
        None => "unknown".to_owned(),
    };
    let h: String = match hash {
        Some(h) => h.clone(),
        None => sha1_of_string(path),
    };
    concat3(&h, "-", &name)
}

/// The album that a file goes to, by the album mode of its folder. A date that
/// the calendar cannot hold names no album.
pub open spec fn album_of(f: db::FolderRow, path: Seq<char>, created_at: Timestamp) -> Option<
    Seq<char>,
> {
    match f.album_mode {
        AlbumMode::NoAlbum => None,
        AlbumMode::Folder => paths::path_file_name(f.path),
        AlbumMode::Subfolder => match paths::path_parent(path) {
            Some(p) => paths::path_file_name(p),
            None => None,
        },
        AlbumMode::Date => clock::formatted(created_at, YEAR_MONTH@),
        AlbumMode::Fixed => f.album_name,
    }
}

/// The album that a file goes to, by the album mode of its folder.
pub fn resolve_album_name(
    folder: &WatchedFolder,
    file_path: &str,
    file_meta: &FileMetadata,
) -> (r: Option<String>)
    ensures
        text::opt_text(r) == album_of(folder@, file_path@, file_meta.created_at),
        folder@.album_mode is Date ==> r is Some == clock::representable(
            file_meta.created_at.secs,
            file_meta.created_at.nanos,
        ),
{
    match folder.album_mode {
        AlbumMode::NoAlbum => None,
        AlbumMode::Folder => paths::file_name(&folder.path),
        AlbumMode::Subfolder => match paths::parent(file_path) {
            Some(p) => paths::file_name(&p),
            None => None,
        },
        AlbumMode::Date => format_utc(file_meta.created_at, YEAR_MONTH),
        AlbumMode::Fixed => clone_opt(&folder.album_name),
    }
}

// ── Retry policy ────────────────────────────────────────────────────────────

/// The longest wait between two attempts, in seconds.
pub const MAX_DELAY_SECS: u64 = 32;

/// The wait before the attempt after failure number `retry`, in seconds: the
/// base, doubled with every further failure, at most [`MAX_DELAY_SECS`].
pub open spec fn backoff_secs(retry: nat, base_secs: nat) -> nat
    decreases retry,
{
    if base_secs >= MAX_DELAY_SECS {
        MAX_DELAY_SECS as nat
    } else if retry <= 1 {
        base_secs
    } else {
        backoff_secs((retry - 1) as nat, base_secs * 2)
    }
}

/// The wait is the base times a power of two, capped.
pub proof fn law_backoff_doubles(retry: nat, base_secs: nat)
    requires
        retry >= 1,
    ensures
        backoff_secs(retry, base_secs) == vstd::math::min(
            (base_secs * vstd::arithmetic::power2::pow2((retry - 1) as nat)) as int,
            MAX_DELAY_SECS as int,
        ),
        backoff_secs(retry, base_secs) <= MAX_DELAY_SECS,
        backoff_secs(retry + 1, base_secs) == vstd::math::min(
            2 * backoff_secs(retry, base_secs) as int,
            MAX_DELAY_SECS as int,
        ),
    decreases retry,
{
    let p = vstd::arithmetic::power2::pow2((retry - 1) as nat);
    vstd::arithmetic::power2::lemma_pow2_pos((retry - 1) as nat);
    if base_secs >= MAX_DELAY_SECS {
        assert(base_secs * p >= base_secs) by (nonlinear_arith)
            requires
                p >= 1,
                base_secs >= 0,
        ;
    } else if retry <= 1 {
        vstd::arithmetic::power2::lemma2_to64();
        assert(base_secs * 1 == base_secs);
        assert(backoff_secs(2, base_secs) == backoff_secs(1, base_secs * 2));
    } else {
        law_backoff_doubles((retry - 1) as nat, base_secs * 2);
        vstd::arithmetic::power2::lemma_pow2_unfold((retry - 1) as nat);
        let q = vstd::arithmetic::power2::pow2((retry - 2) as nat);
        assert(base_secs * (2 * q) == (base_secs * 2) * q) by (nonlinear_arith);
    }
}

/// The wait before the next attempt. With a base of one second: 1 s, 2 s, 4 s,
/// 8 s, 16 s, and 32 s from then on.
pub fn backoff_delay(retry: u32, base: Duration) -> (r: Duration)
    ensures
        clock::duration_parts(r) == (
            backoff_secs(retry as nat, clock::duration_parts(base).0 as nat) as u64,
            0u32,
        ),
{
    let mut secs: u64 = base.as_secs();
    let mut left: u32 = retry;
    let ghost b = secs;
    while left > 1 && secs < MAX_DELAY_SECS
        invariant
            backoff_secs(left as nat, secs as nat) == backoff_secs(retry as nat, b as nat),
        decreases left,
    {
        secs = secs * 2;
        left = left - 1;
    }
    if secs > MAX_DELAY_SECS {
        secs = MAX_DELAY_SECS;
    }
    Duration::from_secs(secs)
}

// ── State machine ───────────────────────────────────────────────────────────

/// Where the upload of an entry stands: each phase waits for one answer.
#[derive(Debug, Clone, Copy, PartialEq, Eq, Structural)]
pub enum Phase {
    /// The entry is being marked as uploading.
    Starting,
    /// The times of the file are being read.
    ReadingTimes,
    /// The server is asked whether it has the asset already.
    CheckingServer,
    /// The file is being sent.
    Sending,
    /// The upload is being recorded.
    Recording,
    /// The folder is being looked up, for its album.
    FindingAlbum,
    /// The asset is being added to an album.
    FillingAlbum,
    /// The folder is being looked up, for what to do with the source file.
    FindingDisposal,
    /// The source file is being trashed or deleted.
    Disposing,
    /// The entry is being marked as completed.
    Completing,
    /// Waiting before the entry goes back to the queue.
    BackingOff,
    /// The entry is being marked as pending or failed.
    Returning,
    /// Nothing is left to do.
    Finished,
}

/// What was answered to an action.
pub enum ItemEvent {
    /// A store update was done (`true`) or failed.
    Stored(bool),
    /// The times of the file, and its modification time in seconds.
    Times { meta: FileMetadata, mtime: i64 },
    /// What the server said to the duplicate check, or why it said nothing.
    Checked(Result<Vec<BulkCheckResult>, String>),
    /// What came of sending the file.
    Sent(Result<UploadResult, String>),
    /// The folder that was looked up, where it could be.
    Folder(Option<WatchedFolder>),
    /// An action on the album or the source file ended, well or not.
    Done,
    /// The wait is over.
    Waited,
}

/// What to do next.
pub enum ItemAction {
    /// Update the status and message of the entry.
    UpdateStatus { id: i64, status: &'static str, error: Option<String> },
    /// Read the times of the file.
    ReadTimes { path: String },
    /// Ask the server whether it has this asset.
    CheckServer { item: BulkCheckItem },
    /// Send the file to the server.
    Send {
        path: String,
        device_asset_id: String,
        device_id: String,
        meta: FileMetadata,
    },
    /// Record the upload.
    Record {
        path: String,
        hash: String,
        size: u64,
        mtime: i64,
        asset_id: String,
        device_asset_id: String,
        /// Empty: an entry does not say which server it is for.
        server_url: &'static str,
    },
    /// Look up a watched folder.
    FindFolder { id: i64 },
    /// Add the asset to the album of this name.
    AddToAlbum { album: String, asset_id: String },
    /// Move the file to the trash of its folder.
    Trash { path: String, root: String },
    /// Delete the file.
    Delete { path: String },
    /// Mark the entry as completed.
    Complete { id: i64, asset: Option<String> },
    /// Wait.
    Wait { delay: Duration },
    /// Nothing.
    Stop,
}

/// The upload of one queue entry.
pub struct ItemRun {
    id: i64,
    path: String,
    hash: Option<String>,
    size: Option<u64>,
    folder_id: Option<i64>,
    retry_count: u32,
    max_retries: u32,
    base_retry_delay: Duration,
    device_id: String,
    device_asset_id: String,
    phase: Phase,
    meta: FileMetadata,
    mtime: i64,
    /// The id of the asset that was sent in this run.
    sent: Option<String>,
    /// The id under which the entry is completed.
    completed_as: Option<String>,
    album: Option<String>,
    disposal: PostUpload,
    root: String,
    error: String,
}

/// The contents of an [`ItemRun`].
#[verifier::ext_equal]
pub struct RunState {
    pub id: i64,
    pub path: Seq<char>,
    pub hash: Option<Seq<char>>,
    pub size: Option<u64>,
    pub folder_id: Option<i64>,
    pub retry_count: u32,
    pub max_retries: u32,
    pub base_secs: u64,
    pub device_id: Seq<char>,
    pub device_asset_id: Seq<char>,
    pub phase: Phase,
    pub meta: FileMetadata,
    pub mtime: i64,
    pub sent: Option<Seq<char>>,
    pub completed_as: Option<Seq<char>>,
    pub album: Option<Seq<char>>,
    pub disposal: PostUpload,
    pub root: Seq<char>,
    pub error: Seq<char>,
}

impl View for ItemRun {
    type V = RunState;

    closed spec fn view(&self) -> RunState {
        RunState {
            id: self.id,
            path: self.path@,
            hash: text::opt_text(self.hash),
            size: self.size,
            folder_id: self.folder_id,
            retry_count: self.retry_count,
            max_retries: self.max_retries,
            base_secs: clock::duration_parts(self.base_retry_delay).0,
            device_id: self.device_id@,
            device_asset_id: self.device_asset_id@,
            phase: self.phase,
            meta: self.meta,
            mtime: self.mtime,
            sent: text::opt_text(self.sent),
            completed_as: text::opt_text(self.completed_as),
            album: text::opt_text(self.album),
            disposal: self.disposal,
            root: self.root@,
            error: self.error@,
        }
    }
}

/// Whether an event answers the action of a phase.
pub open spec fn answers(phase: Phase, e: ItemEvent) -> bool {
    match phase {
        Phase::Starting => e is Stored,
        Phase::ReadingTimes => e is Times,
        Phase::CheckingServer => e is Checked,
        Phase::Sending => e is Sent,
        Phase::Recording => e is Stored,
        Phase::FindingAlbum => e is Folder,
        Phase::FillingAlbum => e is Done,
        Phase::FindingDisposal => e is Folder,
        Phase::Disposing => e is Done,
        Phase::Completing => e is Stored,
        Phase::BackingOff => e is Waited,
        Phase::Returning => e is Stored,
        Phase::Finished => false,
    }
}

/// Whether one more failure uses up the retries.
pub open spec fn retries_used_up(s: RunState) -> bool {
    s.retry_count + 1 >= s.max_retries
}

/// The phase in which the source file and the album are seen to, if any.
pub open spec fn after_recording(s: RunState) -> RunState {
    if s.folder_id is Some {
        RunState { phase: Phase::FindingAlbum, ..s }
    } else {
        RunState { phase: Phase::Completing, ..s }
    }
}

/// The state after an event that answers the action of the phase.
pub open spec fn step(s: RunState, e: ItemEvent) -> RunState {
    if !answers(s.phase, e) {
        s
    } else {
        match s.phase {
            // An entry that cannot be marked is left to whoever holds it.
            Phase::Starting => if e->Stored_0 {
                RunState { phase: Phase::ReadingTimes, ..s }
            } else {
                RunState { phase: Phase::Finished, ..s }
            },
            // A retry asks first whether an earlier attempt got through.
            Phase::ReadingTimes => {
                let t = RunState { meta: e->meta, mtime: e->mtime, ..s };
                if s.retry_count > 0 && s.hash is Some {
                    RunState { phase: Phase::CheckingServer, ..t }
                } else {
                    RunState { phase: Phase::Sending, ..t }
                }
            },
            Phase::CheckingServer => match e->Checked_0 {
                Ok(results) => if results@.len() > 0 && results@[0].exists {
                    RunState {
                        phase: Phase::Completing,
                        completed_as: text::opt_text(results@[0].asset_id),
                        ..s
                    }
                } else {
                    RunState { phase: Phase::Sending, ..s }
                },
                Err(_) => RunState { phase: Phase::Sending, ..s },
            },
            Phase::Sending => match e->Sent_0 {
                Ok(u) => {
                    let t = RunState {
                        sent: Some(u.asset_id@),
                        completed_as: Some(u.asset_id@),
                        ..s
                    };
                    if s.hash is Some {
                        RunState { phase: Phase::Recording, ..t }
                    } else {
                        after_recording(t)
                    }
                },
                Err(msg) => RunState {
                    error: msg@,
                    phase: if retries_used_up(s) {
                        Phase::Returning
                    } else {
                        Phase::BackingOff
                    },
                    ..s
                },
            },
            Phase::Recording => after_recording(s),
            Phase::FindingAlbum => {
                let album = match e->Folder_0 {
                    Some(f) => album_of(f@, s.path, s.meta.created_at),
                    None => None,
                };
                RunState {
                    album,
                    phase: if album is Some {
                        Phase::FillingAlbum
                    } else {
                        Phase::FindingDisposal
                    },
                    ..s
                }
            },
            Phase::FillingAlbum => RunState { phase: Phase::FindingDisposal, ..s },
            Phase::FindingDisposal => match e->Folder_0 {
                Some(f) => RunState {
                    disposal: f.post_upload,
                    root: f.path@,
                    phase: if f.post_upload is Keep {
                        Phase::Completing
                    } else {
                        Phase::Disposing
                    },
                    ..s
                },
                None => RunState { phase: Phase::Completing, ..s },
            },
            Phase::Disposing => RunState { phase: Phase::Completing, ..s },
            Phase::Completing => RunState { phase: Phase::Finished, ..s },
            Phase::BackingOff => RunState { phase: Phase::Returning, ..s },
            Phase::Returning => RunState { phase: Phase::Finished, ..s },
            Phase::Finished => s,
        }
    }
}

/// Whether `a` is the action that the state asks for.
pub open spec fn is_action(s: RunState, a: ItemAction) -> bool {
    match s.phase {
        Phase::Starting => a matches ItemAction::UpdateStatus { id, status, error } && id == s.id
            && status@ == "uploading"@ && error is None,
        Phase::ReadingTimes => a matches ItemAction::ReadTimes { path } && path@ == s.path,
        Phase::CheckingServer => a matches ItemAction::CheckServer { item } && item.id@
            == s.device_asset_id && Some(item.checksum@) == s.hash,
        Phase::Sending => a matches ItemAction::Send { path, device_asset_id, device_id, meta }
            && path@ == s.path && device_asset_id@ == s.device_asset_id && device_id@ == s.device_id
            && meta == s.meta,
        Phase::Recording => a matches ItemAction::Record {
            path,
            hash,
            size,
            mtime,
            asset_id,
            device_asset_id,
            server_url,
        } && path@ == queue::storage_path(s.path) && Some(hash@) == s.hash && size == (
        match s.size {
            Some(n) => n,
            None => 0,
        }) && mtime == s.mtime && Some(asset_id@) == s.sent && device_asset_id@
            == s.device_asset_id && server_url@ == ""@,
        Phase::FindingAlbum | Phase::FindingDisposal => a matches ItemAction::FindFolder { id }
            && Some(id) == s.folder_id,
        Phase::FillingAlbum => a matches ItemAction::AddToAlbum { album, asset_id } && Some(album@)
            == s.album && Some(asset_id@) == s.sent,
        Phase::Disposing => match s.disposal {
            PostUpload::Trash => a matches ItemAction::Trash { path, root } && path@ == s.path
                && root@ == s.root,
            PostUpload::Delete => a matches ItemAction::Delete { path } && path@ == s.path,
            PostUpload::Keep => false,
        },
        Phase::Completing => a matches ItemAction::Complete { id, asset } && id == s.id
            && text::opt_text(asset) == s.completed_as,
        Phase::BackingOff => a matches ItemAction::Wait { delay } && clock::duration_parts(delay)
            == (backoff_secs((s.retry_count + 1) as nat, s.base_secs as nat) as u64, 0u32),
        Phase::Returning => a matches ItemAction::UpdateStatus { id, status, error } && id == s.id
            && status@ == (if retries_used_up(s) {
            "failed"@
        } else {
            "pending"@
        }) && text::opt_text(error) == Some(s.error),
        Phase::Finished => a is Stop,
    }
}

/// What holds of every run: the phases that need a hash, a folder or a sent
/// asset have one.
pub open spec fn run_valid(s: RunState) -> bool {
    &&& s.phase is CheckingServer || s.phase is Recording ==> s.hash is Some
    &&& s.phase is FindingAlbum || s.phase is FillingAlbum || s.phase is FindingDisposal
        ==> s.folder_id is Some
    &&& s.phase is FillingAlbum ==> s.album is Some
    &&& s.phase is Disposing ==> s.disposal !is Keep
    &&& s.phase is Recording || s.phase is FindingAlbum || s.phase is FillingAlbum
        || s.phase is FindingDisposal || s.phase is Disposing ==> s.sent is Some
    &&& s.phase is BackingOff ==> !retries_used_up(s)
}

/// The state in which the upload of an entry starts.
pub open spec fn is_start(s: RunState, e: QueueEntry, c: RunConfig) -> bool {
    &&& s.id == e.id
    &&& s.path == e.file_path@
    &&& s.hash == text::opt_text(e.file_hash)
    &&& s.size == e.file_size
    &&& s.folder_id == e.folder_id
    &&& s.retry_count == e.retry_count
    &&& s.max_retries == c.max_retries
    &&& s.base_secs == clock::duration_parts(c.base_retry_delay).0
    &&& s.device_id == c.device_id@
    &&& s.device_asset_id == device_asset_id_of(e.file_path@, text::opt_text(e.file_hash))
    &&& s.phase is Starting
    &&& s.sent is None
    &&& s.completed_as is None
}

/// What the upload of an entry needs to know of the configuration.
pub struct RunConfig {
    /// Failures after which an entry is given up.
    pub max_retries: u32,
    /// The wait after the first failure.
    pub base_retry_delay: Duration,
    /// The device id sent with every upload.
    pub device_id: String,
}

impl ItemRun {
    /// The invariant of a run, see [`run_valid`].
    pub open spec fn wf(&self) -> bool {
        run_valid(self@)
    }

    /// Start the upload of a claimed entry.
    pub fn start(entry: &QueueEntry, config: &RunConfig) -> (r: ItemRun)
        ensures
            r.wf(),
            is_start(r@, *entry, *config),
    {
        let zero: Timestamp = Timestamp { secs: 0, nanos: 0 };
        ItemRun {
            id: entry.id,
            path: entry.file_path.clone(),
            hash: clone_opt(&entry.file_hash),
            size: entry.file_size,
            folder_id: entry.folder_id,
            retry_count: entry.retry_count,
            max_retries: config.max_retries,
            base_retry_delay: config.base_retry_delay,
            device_id: config.device_id.clone(),
            device_asset_id: device_asset_id(&entry.file_path, &entry.file_hash),
            phase: Phase::Starting,
            meta: FileMetadata { created_at: zero, modified_at: zero },
            mtime: 0,
            sent: None,
            completed_as: None,
            album: None,
            disposal: PostUpload::Keep,
            root: String::new(),
            error: String::new(),
        }
    }

    /// Where the run stands.
    pub fn phase(&self) -> (r: Phase)
        ensures
            r == self@.phase,
    {
        self.phase
    }

    fn used_up(&self) -> (r: bool)
        ensures
            r == retries_used_up(self@),
    {
        self.retry_count as u64 + 1 >= self.max_retries as u64
    }

    /// The action that is due.
    pub fn action(&self) -> (r: ItemAction)
        requires
            self.wf(),
        ensures
            is_action(self@, r),
    {
        match self.phase {
            Phase::Starting => ItemAction::UpdateStatus {
                id: self.id,
                status: "uploading",
                error: None,
            },
            Phase::ReadingTimes => ItemAction::ReadTimes { path: self.path.clone() },
            Phase::CheckingServer => ItemAction::CheckServer {
                item: BulkCheckItem {
                    id: self.device_asset_id.clone(),
                    checksum: text_or_empty(&self.hash),
                },
            },
            Phase::Sending => ItemAction::Send {
                path: self.path.clone(),
                device_asset_id: self.device_asset_id.clone(),
                device_id: self.device_id.clone(),
                meta: self.meta,
            },
            Phase::Recording => ItemAction::Record {
                path: canonical_path_for_storage(&self.path),
                hash: text_or_empty(&self.hash),
                size: match self.size {
                    Some(n) => n,
                    None => 0,
                },
                mtime: self.mtime,
                asset_id: text_or_empty(&self.sent),
                device_asset_id: self.device_asset_id.clone(),
                server_url: "",
            },
            Phase::FindingAlbum | Phase::FindingDisposal => ItemAction::FindFolder {
                id: match self.folder_id {
                    Some(f) => f,
                    None => 0,
                },
            },
            Phase::FillingAlbum => ItemAction::AddToAlbum {
                album: text_or_empty(&self.album),
                asset_id: text_or_empty(&self.sent),
            },
            Phase::Disposing => match self.disposal {
                PostUpload::Trash => ItemAction::Trash {
                    path: self.path.clone(),
                    root: self.root.clone(),
                },
                PostUpload::Delete | PostUpload::Keep => ItemAction::Delete {
                    path: self.path.clone(),
                },
            },
            Phase::Completing => ItemAction::Complete {
                id: self.id,
                asset: clone_opt(&self.completed_as),
            },
            Phase::BackingOff => {
                let new_retry: u32 = self.retry_count + 1;
                ItemAction::Wait { delay: backoff_delay(new_retry, self.base_retry_delay) }
            },
            Phase::Returning => {
                let status: &'static str = if self.used_up() {
                    "failed"
                } else {
                    "pending"
                };
                ItemAction::UpdateStatus {
                    id: self.id,
                    status,
                    error: Some(self.error.clone()),
                }
            },
            Phase::Finished => ItemAction::Stop,
        }
    }

    fn leave_recording(&mut self)
        ensures
            final(self)@ == after_recording(old(self)@),
    {
        if self.folder_id.is_some() {
            self.phase = Phase::FindingAlbum;
        } else {
            self.phase = Phase::Completing;
        }
    }

    /// Take in what was answered to the action. An event that answers another
    /// action changes nothing.
    pub fn resume(&mut self, event: ItemEvent)
        requires
            old(self).wf(),
        ensures
            final(self).wf(),
            final(self)@ == step(old(self)@, event),
    {
        match (self.phase, event) {
            (Phase::Starting, ItemEvent::Stored(ok)) => {
                self.phase = if ok {
                    Phase::ReadingTimes
                } else {
                    Phase::Finished
                };
            },
            (Phase::ReadingTimes, ItemEvent::Times { meta, mtime }) => {
                self.meta = meta;
                self.mtime = mtime;
                self.phase = if self.retry_count > 0 && self.hash.is_some() {
                    Phase::CheckingServer
                } else {
                    Phase::Sending
                };
            },
            (Phase::CheckingServer, ItemEvent::Checked(Ok(results))) => {
                if results.len() > 0 && results[0].exists {
                    self.completed_as = clone_opt(&results[0].asset_id);
                    self.phase = Phase::Completing;
                } else {
                    self.phase = Phase::Sending;
                }
            },
            (Phase::CheckingServer, ItemEvent::Checked(Err(_))) => {
                self.phase = Phase::Sending;
            },
            (Phase::Sending, ItemEvent::Sent(Ok(u))) => {
                self.completed_as = Some(u.asset_id.clone());
                self.sent = Some(u.asset_id);
                if self.hash.is_some() {
                    self.phase = Phase::Recording;
                } else {
                    self.leave_recording();
                }
            },
            (Phase::Sending, ItemEvent::Sent(Err(msg))) => {
                self.error = msg;
                self.phase = if self.used_up() {
                    Phase::Returning
                } else {
                    Phase::BackingOff
                };
            },
            (Phase::Recording, ItemEvent::Stored(_)) => {
                self.leave_recording();
            },
            (Phase::FindingAlbum, ItemEvent::Folder(f)) => {
                self.album = match &f {
                    Some(f) => resolve_album_name(f, &self.path, &self.meta),
                    None => None,
                };
                self.phase = if self.album.is_some() {
                    Phase::FillingAlbum
                } else {
                    Phase::FindingDisposal
                };
            },
            (Phase::FillingAlbum, ItemEvent::Done) => {
                self.phase = Phase::FindingDisposal;
            },
            (Phase::FindingDisposal, ItemEvent::Folder(Some(f))) => {
                self.disposal = f.post_upload;
                self.root = f.path;
                self.phase = match f.post_upload {
                    PostUpload::Keep => Phase::Completing,
                    PostUpload::Trash | PostUpload::Delete => Phase::Disposing,
                };
            },
            (Phase::FindingDisposal, ItemEvent::Folder(None)) => {
                self.phase = Phase::Completing;
            },
            (Phase::Disposing, ItemEvent::Done) => {
                self.phase = Phase::Completing;
            },
            (Phase::Completing, ItemEvent::Stored(_)) => {
                self.phase = Phase::Finished;
            },
            (Phase::BackingOff, ItemEvent::Waited) => {
                self.phase = Phase::Returning;
            },
            (Phase::Returning, ItemEvent::Stored(_)) => {
                self.phase = Phase::Finished;
            },
            _ => {},
        }
    }
}

/// The text of an optional string, empty where there is none.
fn text_or_empty(o: &Option<String>) -> (r: String)
    ensures
        text::opt_text(*o) matches Some(s) ==> r@ == s,
        o is None ==> r@.len() == 0,
{
    match o {
        Some(s) => s.clone(),
        None => String::new(),
    }
}

// ── Laws ────────────────────────────────────────────────────────────────────

/// The state after a sequence of events.
pub open spec fn run(s: RunState, events: Seq<ItemEvent>) -> RunState
    decreases events.len(),
{
    if events.len() == 0 {
        s
    } else {
        step(run(s, events.drop_last()), events.last())
    }
}

/// Whether an event says that the server has taken the file, under this id.
pub open spec fn confirms(e: ItemEvent, asset_id: Seq<char>) -> bool {
    e matches ItemEvent::Sent(Ok(u)) && u.asset_id@ == asset_id
}

/// Position of a phase in a run.
pub open spec fn rank(p: Phase) -> nat {
    match p {
        Phase::Starting => 0,
        Phase::ReadingTimes => 1,
        Phase::CheckingServer => 2,
        Phase::Sending => 3,
        Phase::Recording => 4,
        Phase::FindingAlbum => 5,
        Phase::FillingAlbum => 6,
        Phase::FindingDisposal => 7,
        Phase::Disposing => 8,
        Phase::Completing => 9,
        Phase::BackingOff => 10,
        Phase::Returning => 11,
        Phase::Finished => 12,
    }
}

/// Every answer takes the run to a later phase: no phase is entered twice, so
/// a run sends the file at most once and ends after at most twelve answers.
pub proof fn law_runs_end(s: RunState, e: ItemEvent)
    requires
        answers(s.phase, e),
    ensures
        rank(step(s, e).phase) > rank(s.phase),
{
}

/// A run has sent an asset only if the server confirmed it.
proof fn lemma_sent_was_confirmed(s: RunState, events: Seq<ItemEvent>, asset_id: Seq<char>)
    requires
        s.sent is None,
        run(s, events).sent == Some(asset_id),
    ensures
        exists|k: int| 0 <= k < events.len() && confirms(#[trigger] events[k], asset_id),
    decreases events.len(),
{
    let before = run(s, events.drop_last());
    if before.sent == Some(asset_id) {
        lemma_sent_was_confirmed(s, events.drop_last(), asset_id);
        let k = choose|k: int|
            0 <= k < events.drop_last().len() && confirms(
                #[trigger] events.drop_last()[k],
                asset_id,
            );
        assert(events[k] == events.drop_last()[k]);
    } else {
        assert(confirms(events[events.len() - 1], asset_id));
    }
}

proof fn lemma_run_valid(s: RunState, events: Seq<ItemEvent>)
    requires
        run_valid(s),
    ensures
        run_valid(run(s, events)),
    decreases events.len(),
{
    if events.len() > 0 {
        lemma_run_valid(s, events.drop_last());
    }
}

/// A source file is trashed or deleted only after the server confirmed that it
/// has the file.
pub proof fn law_source_is_kept_until_confirmed(
    entry: QueueEntry,
    config: RunConfig,
    s: RunState,
    events: Seq<ItemEvent>,
    a: ItemAction,
)
    requires
        is_start(s, entry, config),
        run_valid(s),
        is_action(run(s, events), a),
        a is Trash || a is Delete,
    ensures
        exists|k: int, asset_id: Seq<char>|
            0 <= k < events.len() && #[trigger] confirms(events[k], asset_id),
{
    lemma_run_valid(s, events);
    let t = run(s, events);
    lemma_sent_was_confirmed(s, events, t.sent->0);
    let k = choose|k: int| 0 <= k < events.len() && confirms(#[trigger] events[k], t.sent->0);
    assert(confirms(events[k], t.sent->0));
}

/// An entry is recorded as uploaded, and added to an album, only under the id
/// that the server confirmed.
pub proof fn law_record_names_the_confirmed_asset(
    entry: QueueEntry,
    config: RunConfig,
    s: RunState,
    events: Seq<ItemEvent>,
    a: ItemAction,
    id: Seq<char>,
)
    requires
        is_start(s, entry, config),
        run_valid(s),
        is_action(run(s, events), a),
        (a matches ItemAction::Record { asset_id, .. } && asset_id@ == id) || (
        a matches ItemAction::AddToAlbum { asset_id, .. } && asset_id@ == id),
    ensures
        exists|k: int| 0 <= k < events.len() && confirms(#[trigger] events[k], id),
{
    lemma_sent_was_confirmed(s, events, id);
}

/// A failed upload goes back to the queue with its message after the wait that
/// the retry policy asks for, and is marked as failed once its retries are used
/// up.
pub proof fn law_failure_returns_the_entry(s: RunState, msg: String, a: ItemAction, b: ItemAction)
    requires
        s.phase is Sending,
        is_action(step(s, ItemEvent::Sent(Err(msg))), a),
        is_action(step(step(s, ItemEvent::Sent(Err(msg))), ItemEvent::Waited), b),
    ensures
        retries_used_up(s) ==> (a matches ItemAction::UpdateStatus { id, status, error } && id
            == s.id && status@ == "failed"@ && text::opt_text(error) == Some(msg@)),
        !retries_used_up(s) ==> {
            &&& a matches ItemAction::Wait { delay }
            &&& clock::duration_parts(delay).0 <= MAX_DELAY_SECS
            &&& b matches ItemAction::UpdateStatus { id, status, error }
            &&& id == s.id
            &&& status@ == "pending"@
            &&& text::opt_text(error) == Some(msg@)
        },
{
    lemma_backoff_bounded((s.retry_count + 1) as nat, s.base_secs as nat);
}

proof fn lemma_backoff_bounded(retry: nat, base_secs: nat)
    ensures
        backoff_secs(retry, base_secs) <= MAX_DELAY_SECS,
    decreases retry,
{
    if base_secs < MAX_DELAY_SECS && retry > 1 {
        lemma_backoff_bounded((retry - 1) as nat, base_secs * 2);
    }
}

/// A retry that finds its asset on the server completes the entry without
/// sending the file again.
pub proof fn law_asset_on_server_is_not_sent_again(
    s: RunState,
    results: Vec<BulkCheckResult>,
    a: ItemAction,
)
    requires
        s.phase is CheckingServer,
        results@.len() > 0,
        results@[0].exists,
        is_action(step(s, ItemEvent::Checked(Ok(results))), a),
    ensures
        a matches ItemAction::Complete { id, asset } && id == s.id && text::opt_text(asset)
            == text::opt_text(results@[0].asset_id),
{
}

/// What a run records is what the next scan looks up: a file that was uploaded
/// and is unchanged is skipped without being opened.
pub proof fn law_uploaded_file_is_skipped(
    t: db::Tables,
    s: RunState,
    a: ItemAction,
    r: db::UploadedRow,
    now: Seq<char>,
)
    requires
        s.phase is Recording,
        s.size is Some,
        is_action(s, a),
        a matches ItemAction::Record {
            path,
            hash,
            size,
            mtime,
            asset_id,
            device_asset_id,
            server_url,
        } && r == db::upload_record(
            path@,
            hash@,
            size as i64,
            mtime,
            Some(asset_id@),
            device_asset_id@,
            server_url@,
            now,
        ),
        db::record_result(t) is Ok,
    ensures
        queue::screening(
            db::after_record(t, r),
            s.path,
            queue::FileStat { size: s.size->0, mtime: s.mtime, online: false },
        ) is AlreadyUploaded,
{
    db::law_recorded_upload_is_found(
        t,
        r,
        r.file_hash,
        r.file_path,
        r.file_size,
        r.file_mtime,
    );
}

/// Whether an event says that the server has the file: it took it, or it said to
/// the duplicate check that it has it.
pub open spec fn server_has_it(e: ItemEvent) -> bool {
    match e {
        ItemEvent::Sent(Ok(_)) => true,
        ItemEvent::Checked(Ok(results)) => results@.len() > 0 && results@[0].exists,
        _ => false,
    }
}

/// Whether some event says that the server has the file.
pub open spec fn server_had_it(events: Seq<ItemEvent>) -> bool {
    exists|k: int| 0 <= k < events.len() && server_has_it(#[trigger] events[k])
}

/// Whether the file was dealt with as far as the server is concerned: the phases
/// after the server said that it has the file.
spec fn past_server(p: Phase) -> bool {
    p is Recording || p is FindingAlbum || p is FillingAlbum || p is FindingDisposal
        || p is Disposing || p is Completing
}

proof fn lemma_past_server(s: RunState, events: Seq<ItemEvent>)
    requires
        s.phase is Starting,
        past_server(run(s, events).phase),
    ensures
        server_had_it(events),
    decreases events.len(),
{
    if events.len() > 0 {
        let q = events.drop_last();
        let before = run(s, q);
        let e = events[events.len() - 1];
        assert(e == events.last());
        if past_server(before.phase) {
            lemma_past_server(s, q);
            let k = choose|k: int| 0 <= k < q.len() && server_has_it(#[trigger] q[k]);
            assert(events[k] == q[k]);
        } else {
            assert(server_has_it(e));
        }
    }
}

/// An entry is completed only after the server said that it has the file: it took
/// it in this run, or it said so to the duplicate check. The same holds of the
/// record of the upload, of the album, and of trashing or deleting the source.
pub proof fn law_completed_entry_is_on_the_server(
    entry: QueueEntry,
    config: RunConfig,
    s: RunState,
    events: Seq<ItemEvent>,
    a: ItemAction,
)
    requires
        is_start(s, entry, config),
        is_action(run(s, events), a),
        a is Complete || a is Record || a is AddToAlbum || a is FindFolder || a is Trash
            || a is Delete,
    ensures
        server_had_it(events),
{
    lemma_past_server(s, events);
}

/// A duplicate check is best effort: an answer that does not say that the server
/// has the file, an error included, makes sending the file the next action. One
/// that says so completes the entry, under the id that the server gave.
pub proof fn law_check_is_best_effort(
    s: RunState,
    answer: Result<Vec<BulkCheckResult>, String>,
    a: ItemAction,
    b: ItemAction,
)
    requires
        is_action(s, a),
        a is CheckServer,
        is_action(step(s, ItemEvent::Checked(answer)), b),
    ensures
        !server_has_it(ItemEvent::Checked(answer)) ==> (b matches ItemAction::Send { path, .. }
            && path@ == s.path) && step(s, ItemEvent::Checked(answer)).phase is Sending,
        server_has_it(ItemEvent::Checked(answer)) ==> (b matches ItemAction::Complete { id, asset }
            && id == s.id && text::opt_text(asset) == text::opt_text(
            answer->Ok_0@[0].asset_id,
        )),
{
}

/// What a run works on never changes: an event changes neither the entry nor the
/// configuration, and the times of the file only where it brings them.
pub proof fn law_run_keeps_its_entry(s: RunState, events: Seq<ItemEvent>)
    ensures
        ({
            let t = run(s, events);
            &&& t.id == s.id
            &&& t.path == s.path
            &&& t.hash == s.hash
            &&& t.size == s.size
            &&& t.folder_id == s.folder_id
            &&& t.retry_count == s.retry_count
            &&& t.max_retries == s.max_retries
            &&& t.base_secs == s.base_secs
            &&& t.device_id == s.device_id
            &&& t.device_asset_id == s.device_asset_id
            &&& (forall|k: int| 0 <= k < events.len() ==> !(#[trigger] events[k] is Times))
                ==> t.meta == s.meta && t.mtime == s.mtime
        }),
    decreases events.len(),
{
    if events.len() > 0 {
        let q = events.drop_last();
        law_run_keeps_its_entry(s, q);
        assert(events[events.len() - 1] == events.last());
        if forall|k: int| 0 <= k < events.len() ==> !(#[trigger] events[k] is Times) {
            assert forall|k: int| 0 <= k < q.len() implies !(#[trigger] q[k] is Times) by {
                assert(events[k] == q[k]);
            }
        }
    }
}

/// Every action of a run is about the entry that it was started with: the id, the
/// file, its hash and size and its folder are those of the entry, and the device
/// is that of the configuration.
pub proof fn law_actions_are_about_the_entry(
    entry: QueueEntry,
    config: RunConfig,
    s: RunState,
    events: Seq<ItemEvent>,
    a: ItemAction,
)
    requires
        is_start(s, entry, config),
        is_action(run(s, events), a),
    ensures
        match a {
            ItemAction::UpdateStatus { id, .. } => id == entry.id,
            ItemAction::ReadTimes { path } => path@ == entry.file_path@,
            ItemAction::CheckServer { item } => {
                &&& Some(item.checksum@) == text::opt_text(entry.file_hash)
                &&& item.id@ == device_asset_id_of(entry.file_path@, Some(item.checksum@))
            },
            ItemAction::Send { path, device_asset_id, device_id, .. } => {
                &&& path@ == entry.file_path@
                &&& device_id@ == config.device_id@
                &&& device_asset_id@ == device_asset_id_of(
                    entry.file_path@,
                    text::opt_text(entry.file_hash),
                )
            },
            ItemAction::Record { path, hash, size, device_asset_id, server_url, .. } => {
                &&& path@ == entry.file_path@ || entry.file_path@ == db::EXTENDED_PREFIX@ + path@
                &&& Some(hash@) == text::opt_text(entry.file_hash)
                &&& entry.file_size matches Some(n) ==> size == n
                &&& entry.file_size is None ==> size == 0
                &&& device_asset_id@ == device_asset_id_of(entry.file_path@, Some(hash@))
                &&& server_url@ == ""@
            },
            ItemAction::FindFolder { id } => Some(id) == entry.folder_id,
            ItemAction::AddToAlbum { .. } => true,
            ItemAction::Trash { path, .. } => path@ == entry.file_path@,
            ItemAction::Delete { path } => path@ == entry.file_path@,
            ItemAction::Complete { id, .. } => id == entry.id,
            ItemAction::Wait { .. } => true,
            ItemAction::Stop => true,
        },
{
    law_run_keeps_its_entry(s, events);
    text::law_prefix_is_removed(entry.file_path@, db::EXTENDED_PREFIX@);
}

/// The id by which the server knows the file in the duplicate check is the one
/// under which it is sent and recorded.
pub proof fn law_asset_keeps_its_device_id(
    s: RunState,
    events: Seq<ItemEvent>,
    more: Seq<ItemEvent>,
    a: ItemAction,
    b: ItemAction,
)
    requires
        is_action(run(s, events), a),
        is_action(run(s, more), b),
        a matches ItemAction::CheckServer { .. } || a matches ItemAction::Send { .. },
        b matches ItemAction::Send { .. } || b matches ItemAction::Record { .. },
    ensures
        (match a {
            ItemAction::CheckServer { item } => item.id@,
            ItemAction::Send { device_asset_id, .. } => device_asset_id@,
            _ => ""@,
        }) == (match b {
            ItemAction::Send { device_asset_id, .. } => device_asset_id@,
            ItemAction::Record { device_asset_id, .. } => device_asset_id@,
            _ => ""@,
        }),
{
    law_run_keeps_its_entry(s, events);
    law_run_keeps_its_entry(s, more);
}

/// The device's id of an asset is the content hash and the name of the file: it
/// begins with the hash, and two files with the same hash have different ids
/// where their names differ.
pub proof fn law_device_asset_id_names_content_and_file(
    path: Seq<char>,
    other: Seq<char>,
    hash: Seq<char>,
)
    ensures
        hash.is_prefix_of(device_asset_id_of(path, Some(hash))),
        paths::path_file_name(path) matches Some(n) ==> n.is_suffix_of(
            device_asset_id_of(path, Some(hash)),
        ),
        paths::path_file_name(path) is Some && paths::path_file_name(other) is Some
            && paths::path_file_name(path) != paths::path_file_name(other) ==> device_asset_id_of(
            path,
            Some(hash),
        ) != device_asset_id_of(other, Some(hash)),
        paths::path_file_name(path) == paths::path_file_name(other) ==> device_asset_id_of(
            path,
            Some(hash),
        ) == device_asset_id_of(other, Some(hash)),
        paths::path_file_name(path) matches Some(n) ==> device_asset_id_of(path, Some(hash)) == hash
            + "-"@ + n,
        paths::path_file_name(path) is None ==> device_asset_id_of(path, Some(hash)) == hash + "-"@
            + "unknown"@,
        device_asset_id_of(path, None) == device_asset_id_of(path, Some(text_sha1(path))),
{
    reveal_strlit("-");
    let x = device_asset_id_of(path, Some(hash));
    let y = device_asset_id_of(other, Some(hash));
    let n = hash.len() + 1;
    assert(x.take(hash.len() as int) =~= hash);
    if paths::path_file_name(path) is Some {
        assert(x.skip(n as int) =~= paths::path_file_name(path)->0);
    }
    if paths::path_file_name(other) is Some {
        assert(y.skip(n as int) =~= paths::path_file_name(other)->0);
    }
}

/// A run begins by marking the entry as uploading. Where that fails nothing more
/// is done; otherwise the times of the file are read.
pub proof fn law_run_begins_with_a_mark(
    entry: QueueEntry,
    config: RunConfig,
    s: RunState,
    marked: bool,
    a: ItemAction,
    b: ItemAction,
)
    requires
        is_start(s, entry, config),
        is_action(s, a),
        is_action(step(s, ItemEvent::Stored(marked)), b),
    ensures
        a matches ItemAction::UpdateStatus { id, status, error } && id == entry.id && status@
            == "uploading"@ && error is None,
        if marked {
            b matches ItemAction::ReadTimes { path } && path@ == entry.file_path@
        } else {
            b is Stop
        },
{
}

/// Once its times are known, a file that was tried before and whose hash is known
/// is checked for on the server, and every other file is sent. What is sent are
/// the times that were read.
pub proof fn law_times_lead_to_the_server(
    s: RunState,
    meta: FileMetadata,
    mtime: i64,
    a: ItemAction,
    b: ItemAction,
)
    requires
        is_action(s, a),
        a is ReadTimes,
        is_action(step(s, ItemEvent::Times { meta, mtime }), b),
    ensures
        if s.retry_count > 0 && s.hash is Some {
            b matches ItemAction::CheckServer { item } && Some(item.checksum@) == s.hash
        } else {
            b matches ItemAction::Send { path, meta: m, .. } && path@ == s.path && m == meta
        },
        step(s, ItemEvent::Times { meta, mtime }).meta == meta,
        step(s, ItemEvent::Times { meta, mtime }).mtime == mtime,
{
}

/// A file that was sent is recorded where its hash is known, with the times that
/// were read and the id that the server gave. Otherwise its folder is looked up,
/// and where it has none the entry is completed under that id.
pub proof fn law_sent_file_is_recorded(s: RunState, u: UploadResult, a: ItemAction, b: ItemAction)
    requires
        is_action(s, a),
        a is Send,
        is_action(step(s, ItemEvent::Sent(Ok(u))), b),
    ensures
        if s.hash is Some {
            b matches ItemAction::Record { hash, mtime, asset_id, .. } && Some(hash@) == s.hash
                && mtime == s.mtime && asset_id@ == u.asset_id@
        } else if s.folder_id is Some {
            b matches ItemAction::FindFolder { id } && Some(id) == s.folder_id
        } else {
            b matches ItemAction::Complete { id, asset } && id == s.id && text::opt_text(asset)
                == Some(u.asset_id@)
        },
        step(s, ItemEvent::Sent(Ok(u))).sent == Some(u.asset_id@),
        step(s, ItemEvent::Sent(Ok(u))).completed_as == Some(u.asset_id@),
{
}

/// After the record, whether or not it could be written, the folder of the entry
/// is looked up; an entry without a folder is completed.
pub proof fn law_record_leads_on(s: RunState, stored: bool, a: ItemAction, b: ItemAction)
    requires
        is_action(s, a),
        a is Record,
        is_action(step(s, ItemEvent::Stored(stored)), b),
    ensures
        match s.folder_id {
            Some(f) => b matches ItemAction::FindFolder { id } && id == f,
            None => b matches ItemAction::Complete { id, asset } && id == s.id && text::opt_text(
                asset,
            ) == s.completed_as,
        },
        step(s, ItemEvent::Stored(stored)).completed_as == s.completed_as,
        step(s, ItemEvent::Stored(stored)).sent == s.sent,
{
}

/// An asset is added to the album that its folder names for it, under the id that
/// the server gave, and to none where the folder names none or is not found. Then
/// the folder is asked what becomes of the source.
pub proof fn law_album_is_filled(
    s: RunState,
    folder: Option<WatchedFolder>,
    a: ItemAction,
    b: ItemAction,
)
    requires
        s.phase is FindingAlbum,
        is_action(s, a),
        is_action(step(s, ItemEvent::Folder(folder)), b),
    ensures
        ({
            let album = match folder {
                Some(f) => album_of(f@, s.path, s.meta.created_at),
                None => None,
            };
            let t = step(s, ItemEvent::Folder(folder));
            &&& album matches Some(name) ==> (b matches ItemAction::AddToAlbum { album, asset_id }
                && album@ == name && Some(asset_id@) == s.sent)
            &&& album is Some ==> step(t, ItemEvent::Done).phase is FindingDisposal
            &&& album is None ==> t.phase is FindingDisposal
            &&& t.completed_as == s.completed_as
            &&& t.sent == s.sent
            &&& step(t, ItemEvent::Done).completed_as == s.completed_as
        }),
{
}

/// The source is trashed in its folder, deleted or kept as its folder says, and
/// kept where the folder is not found. Then the entry is completed under the id
/// that the server gave.
pub proof fn law_source_is_disposed_of_as_the_folder_says(
    s: RunState,
    folder: Option<WatchedFolder>,
    b: ItemAction,
    c: ItemAction,
)
    requires
        s.phase is FindingDisposal,
        is_action(step(s, ItemEvent::Folder(folder)), b),
        is_action(step(step(s, ItemEvent::Folder(folder)), ItemEvent::Done), c),
    ensures
        ({
            let keeps = match folder {
                Some(f) => f.post_upload is Keep,
                None => true,
            };
            if keeps {
                b matches ItemAction::Complete { id, asset } && id == s.id && text::opt_text(asset)
                    == s.completed_as
            } else {
                &&& folder->0.post_upload is Trash ==> (b matches ItemAction::Trash { path, root }
                    && path@ == s.path && root@ == folder->0.path@)
                &&& folder->0.post_upload is Delete ==> (b matches ItemAction::Delete { path }
                    && path@ == s.path)
                &&& c matches ItemAction::Complete { id, asset }
                &&& id == s.id
                &&& text::opt_text(asset) == s.completed_as
            }
        }),
{
}

/// A run is over once the entry was marked as completed, failed or pending, and
/// then nothing changes any more.
pub proof fn law_run_is_over_with_its_mark(
    s: RunState,
    stored: bool,
    e: ItemEvent,
    a: ItemAction,
    b: ItemAction,
)
    requires
        is_action(s, a),
        a is Complete || (a matches ItemAction::UpdateStatus { status, .. } && status@
            != "uploading"@),
        is_action(step(s, ItemEvent::Stored(stored)), b),
    ensures
        b is Stop,
        step(step(s, ItemEvent::Stored(stored)), e) == step(s, ItemEvent::Stored(stored)),
{
}

/// What does not answer the due action changes nothing: each action has its own
/// kind of answer.
pub proof fn law_only_answers_count(s: RunState, e: ItemEvent, a: ItemAction)
    requires
        is_action(s, a),
        match a {
            ItemAction::UpdateStatus { .. } => !(e is Stored),
            ItemAction::ReadTimes { .. } => !(e is Times),
            ItemAction::CheckServer { .. } => !(e is Checked),
            ItemAction::Send { .. } => !(e is Sent),
            ItemAction::Record { .. } => !(e is Stored),
            ItemAction::FindFolder { .. } => !(e is Folder),
            ItemAction::AddToAlbum { .. } => !(e is Done),
            ItemAction::Trash { .. } => !(e is Done),
            ItemAction::Delete { .. } => !(e is Done),
            ItemAction::Complete { .. } => !(e is Stored),
            ItemAction::Wait { .. } => !(e is Waited),
            ItemAction::Stop => true,
        },
    ensures
        step(s, e) == s,
{
}

/// A failed attempt is repeated while fewer than the allowed attempts have
/// failed: then the wait is the base delay, doubled with every earlier failure, at
/// most half a minute and two seconds, and the entry goes back to the queue with
/// the message. After the last allowed attempt it is marked as failed at once.
pub proof fn law_failures_are_counted(s: RunState, msg: String, a: ItemAction, b: ItemAction)
    requires
        is_action(s, a),
        a is Send,
        is_action(step(s, ItemEvent::Sent(Err(msg))), b),
    ensures
        if s.retry_count + 1 < s.max_retries {
            &&& b matches ItemAction::Wait { delay }
            &&& clock::duration_parts(delay).0 == vstd::math::min(
                (s.base_secs * vstd::arithmetic::power2::pow2(s.retry_count as nat)) as int,
                32,
            )
            &&& clock::duration_parts(delay).1 == 0
            &&& forall|c: ItemAction|
                #[trigger] is_action(step(step(s, ItemEvent::Sent(Err(msg))), ItemEvent::Waited), c)
                    ==> (c matches ItemAction::UpdateStatus { id, status, error } && id == s.id
                    && status@ == "pending"@ && text::opt_text(error) == Some(msg@))
        } else {
            b matches ItemAction::UpdateStatus { id, status, error } && id == s.id && status@
                == "failed"@ && text::opt_text(error) == Some(msg@)
        },
{
    law_backoff_doubles((s.retry_count + 1) as nat, s.base_secs as nat);
}

/// The album follows from the mode of the folder alone: none without a mode, the
/// chosen one where it is fixed, the name of the watched folder, or that of the
/// directory of the file. Albums by date are the same for files of the same time,
/// whatever their paths.
pub proof fn law_album_follows_the_mode(
    f: db::FolderRow,
    g: db::FolderRow,
    path: Seq<char>,
    other: Seq<char>,
    t: Timestamp,
    u: Timestamp,
)
    ensures
        f.album_mode is NoAlbum ==> album_of(f, path, t) is None,
        f.album_mode is Fixed ==> album_of(f, path, t) == f.album_name,
        f.album_mode is Folder ==> album_of(f, path, t) == paths::path_file_name(f.path),
        f.album_mode is Subfolder && paths::path_parent(path) is Some ==> album_of(f, path, t)
            == paths::path_file_name(paths::path_parent(path)->0),
        f.album_mode is Subfolder && paths::path_parent(path) is None ==> album_of(f, path, t)
            is None,
        f.album_mode is Date ==> album_of(f, path, t) == clock::formatted(t, "%Y-%m"@),
        f.album_mode == g.album_mode && f.path == g.path && f.album_name == g.album_name
            ==> album_of(f, path, t) == album_of(g, path, t),
        f.album_mode is Date ==> album_of(f, path, t) == album_of(f, other, t),
        !(f.album_mode is Date) ==> album_of(f, path, t) == album_of(f, path, u),
{
}

/// A run begins with its entry as it is, nothing sent and nothing completed.
pub proof fn law_run_begins_with_its_entry(s: RunState, e: QueueEntry, c: RunConfig)
    requires
        is_start(s, e, c),
    ensures
        s.id == e.id && s.path == e.file_path@ && s.hash == text::opt_text(e.file_hash),
        s.size == e.file_size && s.folder_id == e.folder_id,
        s.retry_count == e.retry_count && s.max_retries == c.max_retries,
        s.base_secs == clock::duration_parts(c.base_retry_delay).0,
        s.device_id == c.device_id@,
        s.phase is Starting && s.sent is None && s.completed_as is None,
{
}

} // verus!
