//! The upload pipeline's view of the database.
//!
//! [`DbStore`] bridges the typed tables (enums, signed sizes, text timestamps)
//! to the interface that the upload pipeline expects.

use vstd::prelude::*;

use crate::clock;
use crate::clock::{now, parse_rfc3339, Timestamp};
use crate::db;
use crate::db::{Database, DbError, QueueStatus, Tables, UploadOrder, WatchedFolder};
use crate::text;
use crate::text::concat2;
use crate::upload::queue;
use crate::upload::queue::{
    NewQueueEntry, QueueEntry, QueueStats, QueueStore, StoreCall, StoreError,
};

verus! {

broadcast use vstd::seq::group_seq_axioms;

impl DbError {
    /// The text of the error.
    pub open spec fn text(self) -> Seq<char> {
        "Database query failed: "@ + match self {
            DbError::DuplicatePath => "UNIQUE constraint failed: watched_folders.path"@,
            DbError::ForeignKey => "FOREIGN KEY constraint failed"@,
            DbError::IdsExhausted => "database or disk is full"@,
            DbError::Corrupt => "database disk image is malformed"@,
        }
    }

    /// The message shown to the user.
    pub fn message(&self) -> (r: String)
        ensures
            r@ == self.text(),
    {
        match self {
            DbError::DuplicatePath => concat2(
                "Database query failed: ",
                "UNIQUE constraint failed: watched_folders.path",
            ),
            DbError::ForeignKey => concat2(
                "Database query failed: ",
                "FOREIGN KEY constraint failed",
            ),
            DbError::IdsExhausted => concat2("Database query failed: ", "database or disk is full"),
            DbError::Corrupt => concat2(
                "Database query failed: ",
                "database disk image is malformed",
            ),
        }
    }
}

/// A [`Database`] as the storage of the upload pipeline.
pub struct DbStore {
    pub db: Database,
    /// The order in which pending entries are claimed.
    pub order: UploadOrder,
}

/// The size of a stored row as the workers see it.
fn presented_size(size: Option<i64>) -> (r: Option<u64>)
    ensures
        r == match size {
            Some(s) => Some(s as u64),
            None => None,
        },
{
    match size {
        Some(s) => Some(s as u64),
        None => None,
    }
}

/// The time that a stored text names, where it names one.
fn stored_time(t: &Option<String>) -> (r: Option<Timestamp>)
    ensures
        r == match text::opt_text(*t) {
            Some(s) => crate::clock::rfc3339_instant(s),
            None => None,
        },
{
    match t {
        Some(s) => parse_rfc3339(s),
        None => None,
    }
}

/// A row as the workers see it. A queueing time that cannot be read counts as
/// `fallback`.
pub fn present(e: &db::QueueEntry, fallback: Timestamp) -> (r: QueueEntry)
    ensures
        queue::presents(r, e@),
        r.queued_at == match crate::clock::rfc3339_instant(e.queued_at@) {
            Some(t) => t,
            None => fallback,
        },
        r.completed_at == match text::opt_text(e.completed_at) {
            Some(s) => crate::clock::rfc3339_instant(s),
            None => None,
        },
{
    QueueEntry {
        id: e.id,
        file_path: e.file_path.clone(),
        file_hash: text::clone_opt(&e.file_hash),
        file_size: presented_size(e.file_size),
        folder_id: e.folder_id,
        status: e.status.as_str().to_owned(),
        retry_count: e.retry_count as u32,
        error_message: text::clone_opt(&e.error_message),
        queued_at: match parse_rfc3339(&e.queued_at) {
            Some(t) => t,
            None => fallback,
        },
        completed_at: stored_time(&e.completed_at),
    }
}

impl DbStore {
    /// Wrap a database for use by the upload pipeline, which claims the newest
    /// entries first.
    pub fn new(db: Database) -> (r: DbStore)
        requires
            db.wf(),
        ensures
            r.db == db,
            r.order is NewestFirst,
            r.ready(),
    {
        DbStore { db, order: UploadOrder::NewestFirst }
    }

    /// Wrap a database for use by the upload pipeline, which claims entries in
    /// this order.
    pub fn with_order(db: Database, order: UploadOrder) -> (r: DbStore)
        requires
            db.wf(),
        ensures
            r.db == db,
            r.order == order,
            r.ready(),
    {
        DbStore { db, order }
    }
}

impl QueueStore for DbStore {
    open spec fn tables(&self) -> Tables {
        self.db@
    }

    open spec fn ready(&self) -> bool {
        self.db.wf()
    }

    open spec fn order(&self) -> UploadOrder {
        self.order
    }

    /// Only a new row can fail: where it names a folder that is not there, or no
    /// id is left.
    open spec fn fails(&self, call: StoreCall, e: StoreError) -> bool {
        match call {
            StoreCall::Enqueue { folder_id, .. } => db::enqueue_result(
                self.db@,
                folder_id,
            ) matches Err(d) && e.message@ == d.text(),
            StoreCall::Record { .. } => db::record_result(self.db@) matches Err(d) && e.message@
                == d.text(),
            _ => false,
        }
    }

    /// Fails only where the entry names a folder that is not there, or no id is
    /// left.
    fn enqueue(&mut self, entry: NewQueueEntry) -> (r: Result<i64, StoreError>)
        ensures
            match db::enqueue_result(old(self).tables(), entry.folder_id) {
                Ok(_) => r is Ok,
                Err(e) => r matches Err(x) && x.message@ == e.text(),
            },
    {
        let hash: Option<&str> = match &entry.file_hash {
            Some(h) => Some(h.as_str()),
            None => None,
        };
        let size: Option<i64> = match entry.file_size {
            Some(s) => Some(s as i64),
            None => None,
        };
        match self.db.enqueue(&entry.file_path, hash, size, entry.folder_id) {
            Ok(id) => Ok(id),
            Err(e) => Err(StoreError { message: e.message() }),
        }
    }

    fn dequeue_pending(&mut self, limit: usize) -> (r: Result<Vec<QueueEntry>, StoreError>)
        ensures
            r is Ok,
    {
        let rows: Vec<db::QueueEntry> = self.db.dequeue_pending_in(self.order, limit as i64);
        let ghost claimed = db::queue_rows(rows@);
        let fallback: Timestamp = now();
        let mut v: Vec<QueueEntry> = Vec::new();
        let mut i: usize = 0;
        while i < rows.len()
            invariant
                i <= rows@.len(),
                claimed == db::queue_rows(rows@),
                v@.len() == i,
                forall|k: int| 0 <= k < i ==> queue::presents(#[trigger] v@[k], claimed[k]),
            decreases rows@.len() - i,
        {
            v.push(present(&rows[i], fallback));
            i += 1;
        }
        assert(db::is_claim(
            old(self).tables().queue,
            old(self).order(),
            limit as i64 as int,
            claimed,
        ));
        Ok(v)
    }

    fn update_status(&mut self, id: i64, status: &str, error: Option<&str>) -> (r: Result<
        (),
        StoreError,
    >)
        ensures
            r is Ok,
    {
        let s: QueueStatus = QueueStatus::from_str(status);
        self.db.update_queue_status(id, &s, error);
        proof {
            let q = old(self).tables().queue;
            let now = choose|now: Seq<char>|
                clock::names_instant(now) && self.db@ == (Tables {
                    queue: #[trigger] db::after_status(q, id, s, error.deep_view(), now),
                    ..old(self).tables()
                });
            assert(self.tables() == (Tables {
                queue: db::after_status(
                    q,
                    id,
                    QueueStatus::decoded(status@),
                    error.deep_view(),
                    now,
                ),
                ..old(self).tables()
            }));
        }
        Ok(())
    }

    fn mark_completed(&mut self, id: i64, asset_id: Option<&str>) -> (r: Result<(), StoreError>)
        ensures
            r is Ok,
    {
        let none: Option<&str> = None;
        self.db.update_queue_status(id, &QueueStatus::Completed, none);
        proof {
            let q = old(self).tables().queue;
            let now = choose|now: Seq<char>|
                clock::names_instant(now) && self.db@ == (Tables {
                    queue: #[trigger] db::after_status(
                        q,
                        id,
                        QueueStatus::Completed,
                        none.deep_view(),
                        now,
                    ),
                    ..old(self).tables()
                });
            assert(self.tables() == (Tables {
                queue: db::after_status(q, id, QueueStatus::Completed, None, now),
                ..old(self).tables()
            }));
        }
        Ok(())
    }

    fn is_file_uploaded(&self, hash: &str) -> (r: Result<bool, StoreError>)
        ensures
            r is Ok,
    {
        Ok(self.db.is_file_uploaded(hash))
    }

    fn record_upload(
        &mut self,
        file_path: &str,
        hash: &str,
        size: u64,
        mtime: i64,
        asset_id: &str,
        device_asset_id: &str,
        server_url: &str,
    ) -> (r: Result<(), StoreError>)
        ensures
            match db::record_result(old(self).tables()) {
                Ok(_) => r is Ok,
                Err(e) => r matches Err(x) && x.message@ == e.text(),
            },
    {
        match self.db.record_upload(
            file_path,
            hash,
            size as i64,
            mtime,
            Some(asset_id),
            device_asset_id,
            server_url,
        ) {
            Ok(_) => Ok(()),
            Err(e) => Err(StoreError { message: e.message() }),
        }
    }

    fn is_file_uploaded_fast_path(
        &self,
        file_path: &str,
        file_size: i64,
        file_mtime: i64,
    ) -> (r: Result<bool, StoreError>)
        ensures
            r is Ok,
    {
        Ok(self.db.is_file_uploaded_fast_path(file_path, file_size, file_mtime))
    }

    fn get_queue_stats(&self) -> (r: Result<QueueStats, StoreError>)
        ensures
            r is Ok,
    {
        let s: db::QueueStats = self.db.get_queue_stats();
        Ok(
            QueueStats {
                pending: s.pending as u64,
                uploading: s.uploading as u64,
                completed: s.completed as u64,
                failed: s.failed as u64,
                total: s.pending as u64 + s.uploading as u64 + s.completed as u64 + s.failed as u64,
            },
        )
    }

    fn get_folder(&self, id: i64) -> (r: Result<Option<WatchedFolder>, StoreError>)
        ensures
            r is Ok,
    {
        Ok(self.db.get_folder(id))
    }
}

} // verus!
