//! Upload queue manager: deduplication check, enqueue, and statistics.
//!
//! The queue does not own the database; it works through [`QueueStore`].

use vstd::prelude::*;

use crate::clock;
use crate::clock::Timestamp;
use crate::db;
use crate::db::{Tables, UploadOrder, WatchedFolder, EXTENDED_PREFIX};
use crate::text;
use crate::text::drop_prefix;
use crate::upload::hasher;
use crate::upload::hasher::HasherError;

verus! {

broadcast use vstd::seq::group_seq_axioms;

// ── Errors ──────────────────────────────────────────────────────────────────

/// A failure of the storage backend.
#[derive(Debug)]
pub struct StoreError {
    pub message: String,
}

/// Why a file could not be queued.
#[derive(Debug)]
pub enum QueueError {
    Hash { path: String, source: HasherError },
    Store(StoreError),
}

/// The text of a [`QueueError`].
pub open spec fn queue_message(e: QueueError) -> Seq<char> {
    match e {
        QueueError::Hash { path, source } => "Failed to hash file `"@ + path@ + "`: "@
            + hasher::hasher_message(source),
        QueueError::Store(s) => "Queue store error: "@ + s.message@,
    }
}

impl QueueError {
    /// The message shown to the user.
    pub fn message(&self) -> (r: String)
        ensures
            r@ == queue_message(*self),
    {
        match self {
            QueueError::Hash { path, source } => {
                let mut r: String = text::concat3("Failed to hash file `", path, "`: ");
                r.append(&source.message());
                r
            },
            QueueError::Store(s) => text::concat2("Queue store error: ", &s.message),
        }
    }
}

// ── Data types ──────────────────────────────────────────────────────────────

/// What a new entry of the upload queue is made of.
#[derive(Debug)]
pub struct NewQueueEntry {
    /// Absolute path to the file.
    pub file_path: String,
    /// SHA-1 of the file content.
    pub file_hash: Option<String>,
    /// File size in bytes.
    pub file_size: Option<u64>,
    /// The watched folder that the file came from, if any.
    pub folder_id: Option<i64>,
}

/// An entry of the upload queue as the workers see it.
#[derive(Debug)]
pub struct QueueEntry {
    pub id: i64,
    pub file_path: String,
    pub file_hash: Option<String>,
    pub file_size: Option<u64>,
    pub folder_id: Option<i64>,
    /// One of `pending`, `uploading`, `failed`, `completed`.
    pub status: String,
    pub retry_count: u32,
    pub error_message: Option<String>,
    pub queued_at: Timestamp,
    pub completed_at: Option<Timestamp>,
}

/// Counts across all queue entries.
#[derive(Debug, Clone, Copy, PartialEq, Eq, Structural)]
pub struct QueueStats {
    pub pending: u64,
    pub uploading: u64,
    pub completed: u64,
    pub failed: u64,
    pub total: u64,
}

/// What the filesystem says of a file before it is opened.
#[derive(Debug, Clone, Copy, PartialEq, Eq, Structural)]
pub struct FileStat {
    pub size: u64,
    /// Modification time in seconds since the Unix epoch; 0 where unknown.
    pub mtime: i64,
    /// Whether the content is not on this machine, so that reading the file
    /// would download it.
    pub online: bool,
}

/// The modification time of a file in seconds since the Unix epoch. `since_epoch`
/// is the time after the epoch, where the filesystem gives one.
pub fn mtime_secs(since_epoch: Option<u64>) -> (r: i64)
    ensures
        r == match since_epoch {
            Some(s) => s as i64,
            None => 0,
        },
{
    match since_epoch {
        Some(s) => s as i64,
        None => 0,
    }
}

/// The form in which paths are stored and looked up: without the Windows
/// extended-length prefix.
pub open spec fn storage_path(path: Seq<char>) -> Seq<char> {
    text::without_prefix(path, EXTENDED_PREFIX@)
}

/// The form in which a path is stored and looked up.
pub fn canonical_path_for_storage(path: &str) -> (r: String)
    ensures
        r@ == storage_path(path@),
{
    drop_prefix(path, EXTENDED_PREFIX)
}

// ── Store ───────────────────────────────────────────────────────────────────

/// The size of a file as it is stored in a row.
pub open spec fn stored_size(size: Option<u64>) -> Option<i64> {
    match size {
        Some(s) => Some(s as i64),
        None => None,
    }
}

/// Whether `e` is what the workers see of the row `r`. A queueing time that cannot
/// be read may stand for any.
pub open spec fn presents(e: QueueEntry, r: db::QueueRow) -> bool {
    &&& e.id == r.id
    &&& e.file_path@ == r.file_path
    &&& text::opt_text(e.file_hash) == r.file_hash
    &&& e.file_size == (match r.file_size {
        Some(s) => Some(s as u64),
        None => None,
    })
    &&& e.folder_id == r.folder_id
    &&& e.status@ == r.status.code()
    &&& e.retry_count == r.retry_count as u32
    &&& text::opt_text(e.error_message) == r.error_message
    &&& clock::rfc3339_instant(r.queued_at) matches Some(t) ==> e.queued_at == t
    &&& e.completed_at == (match r.completed_at {
        Some(s) => clock::rfc3339_instant(s),
        None => None,
    })
}

/// Whether `s` are the counts of the queue `q`.
pub open spec fn counts(s: QueueStats, q: Seq<db::QueueRow>) -> bool {
    &&& s.pending == db::status_count(q, db::QueueStatus::Pending)
    &&& s.uploading == db::status_count(q, db::QueueStatus::Uploading)
    &&& s.completed == db::status_count(q, db::QueueStatus::Completed)
    &&& s.failed == db::status_count(q, db::QueueStatus::Failed)
    &&& s.total == q.len()
}

/// A call of an operation of a [`QueueStore`], with what is handed to it.
pub enum StoreCall {
    Enqueue {
        path: Seq<char>,
        file_hash: Option<Seq<char>>,
        file_size: Option<u64>,
        folder_id: Option<i64>,
    },
    Claim { limit: usize },
    SetStatus { id: i64, status: Seq<char>, error: Option<Seq<char>> },
    Complete { id: i64, confirmed: Option<Seq<char>> },
    LookUpHash { hash: Seq<char> },
    Record {
        path: Seq<char>,
        hash: Seq<char>,
        size: u64,
        mtime: i64,
        asset_id: Seq<char>,
        device_asset_id: Seq<char>,
        server_url: Seq<char>,
    },
    LookUpFile { path: Seq<char>, stored_size: i64, mtime: i64 },
    Count,
    Folder { id: i64 },
}

/// The interface that the queue and the workers need from their storage.
///
/// An operation that fails changes nothing.
pub trait QueueStore {
    /// What the storage holds.
    spec fn tables(&self) -> Tables;

    /// Whether the storage is in a valid state.
    spec fn ready(&self) -> bool;

    /// The order in which pending entries are claimed.
    spec fn order(&self) -> UploadOrder;

    /// Whether the storage, as it is, may answer a call with this error.
    spec fn fails(&self, call: StoreCall, e: StoreError) -> bool;

    /// Insert a new entry. Returns its id.
    fn enqueue(&mut self, entry: NewQueueEntry) -> (r: Result<i64, StoreError>)
        requires
            old(self).ready(),
        ensures
            final(self).ready(),
            final(self).order() == old(self).order(),
            match r {
                Ok(id) => {
                    &&& db::enqueue_result(old(self).tables(), entry.folder_id) == Ok::<
                        i64,
                        db::DbError,
                    >(id)
                    &&& exists|now: Seq<char>|
                        clock::names_instant(now) && final(self).tables() == #[trigger] db::after_enqueue(
                            old(self).tables(),
                            entry.file_path@,
                            text::opt_text(entry.file_hash),
                            stored_size(entry.file_size),
                            entry.folder_id,
                            now,
                        )
                },
                Err(e) => {
                    &&& final(self).tables() == old(self).tables()
                    &&& old(self).fails(StoreCall::Enqueue {
                        path: entry.file_path@,
                        file_hash: text::opt_text(entry.file_hash),
                        file_size: entry.file_size,
                        folder_id: entry.folder_id,
                    }, e)
                },
            },
    ;

    /// Claim up to `limit` pending entries.
    fn dequeue_pending(&mut self, limit: usize) -> (r: Result<Vec<QueueEntry>, StoreError>)
        requires
            old(self).ready(),
        ensures
            final(self).ready(),
            final(self).order() == old(self).order(),
            match r {
                Ok(v) => exists|rows: Seq<db::QueueRow>|
                    {
                        &&& #[trigger] db::is_claim(
                            old(self).tables().queue,
                            old(self).order(),
                            limit as i64 as int,
                            rows,
                        )
                        &&& v@.len() == rows.len()
                        &&& forall|i: int|
                            0 <= i < rows.len() ==> presents(#[trigger] v@[i], rows[i])
                        &&& final(self).tables() == (Tables {
                            queue: db::after_claim(old(self).tables().queue, rows),
                            ..old(self).tables()
                        })
                    },
                Err(e) => {
                    &&& final(self).tables() == old(self).tables()
                    &&& old(self).fails(StoreCall::Claim { limit }, e)
                },
            },
    ;

    /// Update the status and the message of an entry.
    fn update_status(&mut self, id: i64, status: &str, error: Option<&str>) -> (r: Result<
        (),
        StoreError,
    >)
        requires
            old(self).ready(),
        ensures
            final(self).ready(),
            final(self).order() == old(self).order(),
            match r {
                Ok(_) => exists|now: Seq<char>|
                    clock::names_instant(now) && final(self).tables() == (Tables {
                        queue: #[trigger] db::after_status(
                            old(self).tables().queue,
                            id,
                            db::QueueStatus::decoded(status@),
                            error.deep_view(),
                            now,
                        ),
                        ..old(self).tables()
                    }),
                Err(e) => {
                    &&& final(self).tables() == old(self).tables()
                    &&& old(self).fails(StoreCall::SetStatus { id, status: status@, error: error.deep_view() }, e)
                },
            },
    ;

    /// Mark an entry as completed.
    fn mark_completed(&mut self, id: i64, asset_id: Option<&str>) -> (r: Result<(), StoreError>)
        requires
            old(self).ready(),
        ensures
            final(self).ready(),
            final(self).order() == old(self).order(),
            match r {
                Ok(_) => exists|now: Seq<char>|
                    clock::names_instant(now) && final(self).tables() == (Tables {
                        queue: #[trigger] db::after_status(
                            old(self).tables().queue,
                            id,
                            db::QueueStatus::Completed,
                            None,
                            now,
                        ),
                        ..old(self).tables()
                    }),
                Err(e) => {
                    &&& final(self).tables() == old(self).tables()
                    &&& old(self).fails(StoreCall::Complete { id, confirmed: asset_id.deep_view() }, e)
                },
            },
    ;

    /// Whether a file with this SHA-1 hash was uploaded.
    fn is_file_uploaded(&self, hash: &str) -> (r: Result<bool, StoreError>)
        requires
            self.ready(),
        ensures
            r matches Ok(b) ==> b == db::hash_recorded(self.tables(), hash@),
            r matches Err(e) ==> self.fails(StoreCall::LookUpHash { hash: hash@ }, e),
    ;

    /// Record a successful upload.
    fn record_upload(
        &mut self,
        file_path: &str,
        hash: &str,
        size: u64,
        mtime: i64,
        asset_id: &str,
        device_asset_id: &str,
        server_url: &str,
    ) -> (r: Result<(), StoreError>)
        requires
            old(self).ready(),
        ensures
            final(self).ready(),
            final(self).order() == old(self).order(),
            match r {
                Ok(_) => {
                    &&& db::record_result(old(self).tables()) is Ok
                    &&& exists|now: Seq<char>|
                        clock::names_instant(now) && final(self).tables() == db::after_record(
                            old(self).tables(),
                            #[trigger] db::upload_record(
                                file_path@,
                                hash@,
                                size as i64,
                                mtime,
                                Some(asset_id@),
                                device_asset_id@,
                                server_url@,
                                now,
                            ),
                        )
                },
                Err(e) => {
                    &&& final(self).tables() == old(self).tables()
                    &&& old(self).fails(StoreCall::Record {
                        path: file_path@,
                        hash: hash@,
                        size,
                        mtime,
                        asset_id: asset_id@,
                        device_asset_id: device_asset_id@,
                        server_url: server_url@,
                    }, e)
                },
            },
    ;

    /// Whether a file with exactly this path, size and modification time was
    /// uploaded.
    fn is_file_uploaded_fast_path(
        &self,
        file_path: &str,
        file_size: i64,
        file_mtime: i64,
    ) -> (r: Result<bool, StoreError>)
        requires
            self.ready(),
        ensures
            r matches Ok(b) ==> b == db::file_recorded(
                self.tables(),
                file_path@,
                file_size,
                file_mtime,
            ),
            r matches Err(e) ==> self.fails(StoreCall::LookUpFile { path: file_path@, stored_size: file_size, mtime: file_mtime }, e),
    ;

    /// Counts of the queue.
    fn get_queue_stats(&self) -> (r: Result<QueueStats, StoreError>)
        requires
            self.ready(),
        ensures
            r matches Ok(s) ==> counts(s, self.tables().queue),
            r matches Err(e) ==> self.fails(StoreCall::Count, e),
    ;

    /// The watched folder with this id.
    fn get_folder(&self, id: i64) -> (r: Result<Option<WatchedFolder>, StoreError>)
        requires
            self.ready(),
        ensures
            r matches Ok(o) ==> match o {
                Some(f) => self.tables().folders.contains(f@) && f@.id == id,
                None => !self.tables().has_folder(id),
            },
            r matches Err(e) ==> self.fails(StoreCall::Folder { id }, e),
    ;
}

// ── UploadQueue ─────────────────────────────────────────────────────────────

/// What becomes of a file before it is opened.
#[derive(Debug, Clone, Copy, PartialEq, Eq, Structural)]
pub enum Screening {
    /// Skip: the content is not on this machine.
    Placeholder,
    /// Skip: a file with this path, size and modification time was uploaded.
    AlreadyUploaded,
    /// Hash the file, and go on with the digest.
    NeedsHash,
}

/// What the screening says of a file, given whether it is a placeholder and what
/// the storage answers when it is asked for the path, size and modification
/// time.
pub fn screened(online: bool, hit: Result<bool, StoreError>) -> (r: Result<Screening, QueueError>)
    ensures
        r == (if online {
            Ok(Screening::Placeholder)
        } else {
            match hit {
                Ok(true) => Ok(Screening::AlreadyUploaded),
                Ok(false) => Ok(Screening::NeedsHash),
                Err(e) => Err(QueueError::Store(e)),
            }
        }),
{
    if online {
        return Ok(Screening::Placeholder);
    }
    match hit {
        Ok(true) => Ok(Screening::AlreadyUploaded),
        Ok(false) => Ok(Screening::NeedsHash),
        Err(e) => Err(QueueError::Store(e)),
    }
}

/// Whether a file is queued, given what the storage answers when it is asked for
/// the content hash.
pub fn needs_entry(hit: Result<bool, StoreError>) -> (r: Result<bool, QueueError>)
    ensures
        r == (match hit {
            Ok(known) => Ok(!known),
            Err(e) => Err::<bool, QueueError>(QueueError::Store(e)),
        }),
{
    match hit {
        Ok(known) => Ok(!known),
        Err(e) => Err(QueueError::Store(e)),
    }
}

/// What is returned for a file that was to be queued, given what the storage
/// answers.
pub fn entry_made(answer: Result<i64, StoreError>) -> (r: Result<Option<i64>, QueueError>)
    ensures
        r == (match answer {
            Ok(id) => Ok(Some(id)),
            Err(e) => Err::<Option<i64>, QueueError>(QueueError::Store(e)),
        }),
{
    match answer {
        Ok(id) => Ok(Some(id)),
        Err(e) => Err(QueueError::Store(e)),
    }
}

/// Manages the upload queue for a single server.
pub struct UploadQueue<S: QueueStore> {
    pub store: S,
    /// Number of concurrent uploads; advisory, not enforced here.
    pub concurrency: usize,
}

/// What the screening of a file says, given what the store holds.
pub open spec fn screening(t: Tables, path: Seq<char>, stat: FileStat) -> Screening {
    if stat.online {
        Screening::Placeholder
    } else if db::file_recorded(t, storage_path(path), stat.size as i64, stat.mtime) {
        Screening::AlreadyUploaded
    } else {
        Screening::NeedsHash
    }
}

/// The call that asks the storage for a file by path, size and modification
/// time.
pub open spec fn file_look_up(path: Seq<char>, stat: FileStat) -> StoreCall {
    StoreCall::LookUpFile {
        path: storage_path(path),
        stored_size: stat.size as i64,
        mtime: stat.mtime,
    }
}

/// The call that puts a file into the queue.
pub open spec fn new_entry(
    path: Seq<char>,
    folder_id: Option<i64>,
    size: u64,
    hash: Seq<char>,
) -> StoreCall {
    StoreCall::Enqueue { path, file_hash: Some(hash), file_size: Some(size), folder_id }
}

impl<S: QueueStore> UploadQueue<S> {
    /// Create a new queue backed by `store`.
    pub fn new(store: S, concurrency: usize) -> (r: Self)
        ensures
            r.store == store,
            r.concurrency == concurrency,
    {
        UploadQueue { store, concurrency }
    }

    /// Decide from path, size and modification time whether a file has to be
    /// opened at all. Opening a placeholder would download it.
    pub fn screen(&self, path: &str, stat: &FileStat) -> (r: Result<Screening, QueueError>)
        requires
            self.store.ready(),
        ensures
            match r {
                Ok(s) => s == screening(self.store.tables(), path@, *stat),
                Err(QueueError::Store(e)) => {
                    &&& !stat.online
                    &&& self.store.fails(file_look_up(path@, *stat), e)
                },
                Err(_) => false,
            },
    {
        if stat.online {
            return Ok(Screening::Placeholder);
        }
        let canonical: String = canonical_path_for_storage(path);
        screened(
            false,
            self.store.is_file_uploaded_fast_path(&canonical, stat.size as i64, stat.mtime),
        )
    }

    /// Queue a file whose content hash is known, unless a file with the same
    /// content was uploaded. Returns the id of the new entry, or `None` where
    /// the file was skipped.
    pub fn queue_hashed(
        &mut self,
        path: &str,
        folder_id: Option<i64>,
        size: u64,
        hash: String,
    ) -> (r: Result<Option<i64>, QueueError>)
        requires
            old(self).store.ready(),
        ensures
            final(self).store.ready(),
            final(self).store.order() == old(self).store.order(),
            final(self).concurrency == old(self).concurrency,
            match r {
                Ok(None) => {
                    &&& db::hash_recorded(old(self).store.tables(), hash@)
                    &&& final(self).store.tables() == old(self).store.tables()
                },
                Ok(Some(id)) => {
                    &&& !db::hash_recorded(old(self).store.tables(), hash@)
                    &&& queued(
                        old(self).store.tables(),
                        final(self).store.tables(),
                        path@,
                        folder_id,
                        size,
                        hash@,
                        id,
                    )
                },
                Err(QueueError::Store(e)) => {
                    &&& final(self).store.tables() == old(self).store.tables()
                    &&& hashed_fails(old(self).store, path@, folder_id, size, hash@, e)
                },
                Err(_) => false,
            },
    {
        match needs_entry(self.store.is_file_uploaded(&hash)) {
            Err(e) => Err(e),
            Ok(false) => Ok(None),
            Ok(true) => {
                let entry = NewQueueEntry {
                    file_path: path.to_owned(),
                    file_hash: Some(hash),
                    file_size: Some(size),
                    folder_id,
                };
                entry_made(self.store.enqueue(entry))
            },
        }
    }

    /// Check a file against what was uploaded before, and queue it if it is
    /// new. Returns the id of the new entry, or `None` where the file was
    /// skipped.
    ///
    /// `stat` is what the filesystem says of the file, or its message where it
    /// cannot say. `hash_file` reads the file, and is called only for a file
    /// that neither is a placeholder nor was uploaded with the same path, size
    /// and modification time.
    pub fn process_file<F: FnOnce() -> Result<String, HasherError>>(
        &mut self,
        path: &str,
        folder_id: Option<i64>,
        stat: Result<FileStat, String>,
        hash_file: F,
    ) -> (r: Result<Option<i64>, QueueError>)
        requires
            old(self).store.ready(),
            needs_hash(old(self).store.tables(), path@, stat) ==> hash_file.requires(()),
        ensures
            final(self).store.ready(),
            final(self).store.order() == old(self).store.order(),
            final(self).concurrency == old(self).concurrency,
            processed(
                old(self).store,
                final(self).store.tables(),
                path@,
                folder_id,
                stat,
                hash_file,
                r,
            ),
    {
        let st: FileStat = match stat {
            Ok(st) => st,
            Err(detail) => {
                return Err(
                    QueueError::Hash {
                        path: path.to_owned(),
                        source: HasherError::Open { path: path.to_owned(), detail },
                    },
                );
            },
        };
        match self.screen(path, &st) {
            Err(e) => Err(e),
            Ok(Screening::Placeholder) => Ok(None),
            Ok(Screening::AlreadyUploaded) => Ok(None),
            Ok(Screening::NeedsHash) => match hash_file() {
                Err(source) => Err(QueueError::Hash { path: path.to_owned(), source }),
                Ok(hash) => self.queue_hashed(path, folder_id, st.size, hash),
            },
        }
    }

    /// Counts of the queue.
    pub fn get_stats(&self) -> (r: Result<QueueStats, QueueError>)
        requires
            self.store.ready(),
        ensures
            match r {
                Ok(s) => counts(s, self.store.tables().queue),
                Err(QueueError::Store(e)) => self.store.fails(StoreCall::Count, e),
                Err(_) => false,
            },
    {
        match self.store.get_queue_stats() {
            Ok(s) => Ok(s),
            Err(e) => Err(QueueError::Store(e)),
        }
    }
}

/// Whether a file has to be opened: it can be looked at, and the screening asks
/// for its hash. Only then is it opened.
pub open spec fn needs_hash(t: Tables, path: Seq<char>, stat: Result<FileStat, String>) -> bool {
    stat is Ok && screening(t, path, stat->Ok_0) is NeedsHash
}

/// Whether the storage may fail with `e` for a file whose hash is known: when it
/// is asked for the hash, or when it is to queue a file with a new hash.
pub open spec fn hashed_fails<S: QueueStore>(
    store: S,
    path: Seq<char>,
    folder_id: Option<i64>,
    size: u64,
    hash: Seq<char>,
    e: StoreError,
) -> bool {
    ||| store.fails(StoreCall::LookUpHash { hash }, e)
    ||| !db::hash_recorded(store.tables(), hash) && store.fails(
        new_entry(path, folder_id, size, hash),
        e,
    )
}

/// What comes of a file that is checked and queued: the tables of `store` become
/// `u`, and `r` is returned. A file that cannot be looked at is an error; so is
/// one that cannot be hashed. An error of the storage is one that it gives when
/// it is asked for the file or for its hash, or when it is to queue the file. A
/// placeholder is skipped without asking the storage.
pub open spec fn processed<S: QueueStore, F: FnOnce() -> Result<String, HasherError>>(
    store: S,
    u: Tables,
    path: Seq<char>,
    folder_id: Option<i64>,
    stat: Result<FileStat, String>,
    hash_file: F,
    r: Result<Option<i64>, QueueError>,
) -> bool {
    let t = store.tables();
    match stat {
        Err(detail) => {
            &&& u == t
            &&& r matches Err(QueueError::Hash { path: p, source: HasherError::Open { path: q, detail: d } })
                && p@ == path && q@ == path && d == detail
        },
        Ok(st) => match r {
            Ok(None) => {
                &&& u == t
                &&& screening(t, path, st) !is NeedsHash || exists|h: String|
                    #[trigger] hash_file.ensures((), Ok(h)) && db::hash_recorded(t, h@)
            },
            Ok(Some(id)) => {
                &&& screening(t, path, st) is NeedsHash
                &&& exists|h: String|
                    {
                        &&& #[trigger] hash_file.ensures((), Ok(h))
                        &&& !db::hash_recorded(t, h@)
                        &&& queued(t, u, path, folder_id, st.size, h@, id)
                    }
            },
            Err(QueueError::Store(e)) => {
                &&& u == t
                &&& !st.online
                &&& store.fails(file_look_up(path, st), e) || (screening(t, path, st) is NeedsHash
                    && exists|h: String|
                    #[trigger] hash_file.ensures((), Ok(h)) && hashed_fails(
                        store,
                        path,
                        folder_id,
                        st.size,
                        h@,
                        e,
                    ))
            },
            Err(QueueError::Hash { path: p, source }) => {
                &&& u == t
                &&& screening(t, path, st) is NeedsHash
                &&& p@ == path
                &&& hash_file.ensures((), Err(source))
            },
        },
    }
}

/// Whether `u` is `t` with one new pending entry `id` for the file.
pub open spec fn queued(
    t: Tables,
    u: Tables,
    path: Seq<char>,
    folder_id: Option<i64>,
    size: u64,
    hash: Seq<char>,
    id: i64,
) -> bool {
    &&& db::enqueue_result(t, folder_id) == Ok::<i64, db::DbError>(id)
    &&& exists|now: Seq<char>|
        clock::names_instant(now) && u == #[trigger] db::after_enqueue(
            t,
            path,
            Some(hash),
            Some(size as i64),
            folder_id,
            now,
        )
}

/// Where the storage answers every call, a file that can be looked at and hashed
/// is queued if and only if it is no placeholder and neither its path, size and
/// modification time nor its content was recorded; otherwise it is skipped, and
/// nothing changes.
pub proof fn law_file_is_queued_unless_recorded<S: QueueStore, F: FnOnce() -> Result<
    String,
    HasherError,
>>(
    store: S,
    u: Tables,
    path: Seq<char>,
    folder_id: Option<i64>,
    st: FileStat,
    hash_file: F,
    hash: Seq<char>,
    r: Result<Option<i64>, QueueError>,
)
    requires
        processed(store, u, path, folder_id, Ok(st), hash_file, r),
        forall|call: StoreCall, e: StoreError| !#[trigger] store.fails(call, e),
        forall|o: Result<String, HasherError>|
            #[trigger] hash_file.ensures((), o) ==> o is Ok && o->Ok_0@ == hash,
    ensures
        r is Ok,
        r->Ok_0 is Some <==> !st.online && !db::file_recorded(
            store.tables(),
            storage_path(path),
            st.size as i64,
            st.mtime,
        ) && !db::hash_recorded(store.tables(), hash),
        r->Ok_0 matches Some(id) ==> queued(
            store.tables(),
            u,
            path,
            folder_id,
            st.size,
            hash,
            id,
        ),
        r->Ok_0 is None ==> u == store.tables(),
{
}

/// A placeholder is skipped, and so is a file whose path, size and modification
/// time were recorded, where the storage answers when it is asked for it. Nothing
/// changes, and no other call of the storage matters.
pub proof fn law_known_file_is_skipped<S: QueueStore, F: FnOnce() -> Result<String, HasherError>>(
    store: S,
    u: Tables,
    path: Seq<char>,
    folder_id: Option<i64>,
    st: FileStat,
    hash_file: F,
    r: Result<Option<i64>, QueueError>,
)
    requires
        processed(store, u, path, folder_id, Ok(st), hash_file, r),
        st.online || db::file_recorded(
            store.tables(),
            storage_path(path),
            st.size as i64,
            st.mtime,
        ),
        forall|e: StoreError| !#[trigger] store.fails(file_look_up(path, st), e),
    ensures
        r == Ok::<Option<i64>, QueueError>(None),
        u == store.tables(),
        !needs_hash(store.tables(), path, Ok(st)),
{
}

/// A path is stored without the prefix of its extended-length spelling, and
/// otherwise as it is.
pub proof fn law_stored_path_is_plain(path: Seq<char>)
    ensures
        storage_path("\\\\?\\"@ + path) == path,
        !"\\\\?\\"@.is_prefix_of(path) ==> storage_path(path) == path,
{
    text::law_prefix_is_removed(path, "\\\\?\\"@);
}

/// A file is hashed unless its content is elsewhere or an upload with its path,
/// size and modification time is on record.
pub proof fn law_only_known_files_are_screened_out(t: Tables, path: Seq<char>, stat: FileStat)
    ensures
        stat.online <==> screening(t, path, stat) is Placeholder,
        screening(t, path, stat) is AlreadyUploaded <==> !stat.online && exists|i: int|
            0 <= i < t.uploaded.len() && (#[trigger] t.uploaded[i]).file_path == storage_path(path)
                && t.uploaded[i].file_size == stat.size as i64 && t.uploaded[i].file_mtime
                == stat.mtime,
        !(screening(t, path, stat) is Placeholder) && !(screening(
            t,
            path,
            stat,
        ) is AlreadyUploaded) ==> screening(t, path, stat) is NeedsHash,
{
}

/// A file that was queued stands at the end of the queue, pending, with its path,
/// digest, size and folder, and nothing else changed.
pub proof fn law_queued_entry_holds_the_file(
    t: Tables,
    u: Tables,
    path: Seq<char>,
    folder_id: Option<i64>,
    size: u64,
    hash: Seq<char>,
    id: i64,
)
    requires
        queued(t, u, path, folder_id, size, hash, id),
    ensures
        u.queue.len() == t.queue.len() + 1,
        u.queue.drop_last() == t.queue,
        u.queue.last().id == id,
        u.queue.last().file_path == path,
        u.queue.last().file_hash == Some(hash),
        u.queue.last().file_size == Some(size as i64),
        u.queue.last().folder_id == folder_id,
        u.queue.last().status is Pending,
        u.queue.last().retry_count == 0,
        u.folders == t.folders,
        u.uploaded == t.uploaded,
        u.config == t.config,
{
    let now = choose|now: Seq<char>|
        clock::names_instant(now) && u == #[trigger] db::after_enqueue(
            t,
            path,
            Some(hash),
            Some(size as i64),
            folder_id,
            now,
        );
    db::law_queueing_is_exact(t, path, Some(hash), Some(size as i64), folder_id, now);
}

/// A file that cannot be looked at, and one that cannot be hashed, is an error
/// that names it, and nothing is queued.
pub proof fn law_unreadable_file_is_an_error<S: QueueStore, F: FnOnce() -> Result<
    String,
    HasherError,
>>(
    store: S,
    u: Tables,
    path: Seq<char>,
    folder_id: Option<i64>,
    stat: Result<FileStat, String>,
    hash_file: F,
    r: Result<Option<i64>, QueueError>,
)
    requires
        processed(store, u, path, folder_id, stat, hash_file, r),
        stat is Err || {
            &&& !stat->Ok_0.online
            &&& !db::file_recorded(
                store.tables(),
                storage_path(path),
                stat->Ok_0.size as i64,
                stat->Ok_0.mtime,
            )
            &&& forall|call: StoreCall, e: StoreError| !#[trigger] store.fails(call, e)
            &&& forall|o: Result<String, HasherError>|
                #[trigger] hash_file.ensures((), o) ==> o is Err
        },
    ensures
        u == store.tables(),
        r matches Err(QueueError::Hash { path: p, .. }) && p@ == path,
{
}

/// What a worker is handed shows the row of the queue: its id, path, digest, size,
/// folder, status, tries and message.
pub proof fn law_presented_entry_shows_its_row(e: QueueEntry, r: db::QueueRow)
    requires
        presents(e, r),
    ensures
        e.id == r.id,
        e.file_path@ == r.file_path,
        text::opt_text(e.file_hash) == r.file_hash,
        r.file_size is None <==> e.file_size is None,
        r.file_size matches Some(s) ==> s >= 0 ==> e.file_size == Some(s as u64),
        e.folder_id == r.folder_id,
        db::QueueStatus::decoded(e.status@) == r.status,
        r.retry_count >= 0 ==> e.retry_count == r.retry_count,
        text::opt_text(e.error_message) == r.error_message,
{
    db::law_codes_read_back(
        db::WatchMode::Native,
        db::AlbumMode::NoAlbum,
        db::PostUpload::Keep,
        r.status,
    );
}

/// The counts of the queue add up to its length.
pub proof fn law_counts_add_up(s: QueueStats, q: Seq<db::QueueRow>)
    requires
        counts(s, q),
    ensures
        s.pending + s.uploading + s.completed + s.failed == s.total,
        s.total == q.len(),
{
    db::law_stats_cover_the_queue(q);
}

/// An error of the queue ends with what went wrong below it.
pub proof fn law_queue_error_ends_with_its_cause(path: String, source: HasherError, e: StoreError)
    ensures
        queue_message(QueueError::Hash { path, source }).skip(
            queue_message(QueueError::Hash { path, source }).len() - hasher::hasher_message(source).len(),
        ) == hasher::hasher_message(source),
        queue_message(QueueError::Store(e)).skip(
            queue_message(QueueError::Store(e)).len() - e.message@.len(),
        ) == e.message@,
{
}

} // verus!
