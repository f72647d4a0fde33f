//! The window with the upload history.

use vstd::prelude::*;

use crate::db;
use crate::db::{QueueEntry, QueueStatus};
use crate::paths;
use crate::text;

verus! {

broadcast use vstd::seq::group_seq_axioms;

/// Most entries that the window shows.
pub const LOG_LIMIT: i64 = 200;

/// What the window says where it has nothing to show.
pub const EMPTY_TEXT: &'static str = "No entries to display.";

/// Which entries the window shows.
#[derive(Debug, Clone, Copy, PartialEq, Eq, Structural)]
pub enum LogFilter {
    All,
    Completed,
    Failed,
}

/// An entry of the history.
#[derive(Debug)]
pub struct LogEntry {
    pub filename: String,
    pub timestamp: String,
    pub status: QueueStatus,
    pub error: Option<String>,
}

impl Clone for LogEntry {
    fn clone(&self) -> (r: Self)
        ensures
            r == *self,
    {
        LogEntry {
            filename: self.filename.clone(),
            timestamp: self.timestamp.clone(),
            status: self.status,
            error: text::clone_opt(&self.error),
        }
    }
}

/// Whether `e` shows an entry of the queue: the name of its file, or the path
/// where it has no name, and when it was completed, or queued where it was not.
pub open spec fn shows_entry(e: LogEntry, q: db::QueueRow) -> bool {
    &&& e.filename@ == (match paths::path_file_name(q.file_path) {
        Some(n) => n,
        None => q.file_path,
    })
    &&& e.timestamp@ == (match q.completed_at {
        Some(t) => t,
        None => q.queued_at,
    })
    &&& e.status == q.status
    &&& text::opt_text(e.error) == q.error_message
}

/// The history that entries of the queue make, in order.
pub fn load_entries(queue: &Vec<QueueEntry>) -> (r: Vec<LogEntry>)
    ensures
        r@.len() == queue@.len(),
        forall|i: int| 0 <= i < r@.len() ==> shows_entry(#[trigger] r@[i], queue@[i]@),
{
    let mut r: Vec<LogEntry> = Vec::new();
    let mut i: usize = 0;
    while i < queue.len()
        invariant
            i <= queue@.len(),
            r@.len() == i,
            forall|j: int| 0 <= j < i ==> shows_entry(#[trigger] r@[j], queue@[j]@),
        decreases queue@.len() - i,
    {
        let q: &QueueEntry = &queue[i];
        let e: LogEntry = LogEntry {
            filename: match paths::file_name(&q.file_path) {
                Some(n) => n,
                None => q.file_path.clone(),
            },
            timestamp: match &q.completed_at {
                Some(t) => t.clone(),
                None => q.queued_at.clone(),
            },
            status: q.status,
            error: text::clone_opt(&q.error_message),
        };
        assert(shows_entry(e, q@));
        r.push(e);
        i += 1;
    }
    r
}

/// Whether a filter shows an entry.
pub open spec fn passes(filter: LogFilter, e: LogEntry) -> bool {
    match filter {
        LogFilter::All => true,
        LogFilter::Completed => e.status is Completed,
        LogFilter::Failed => e.status is Failed,
    }
}

/// The entries that a filter shows, in order.
pub fn visible_entries(entries: &Vec<LogEntry>, filter: LogFilter) -> (r: Vec<LogEntry>)
    ensures
        r@ == entries@.filter(|e: LogEntry| passes(filter, e)),
{
    let ghost p = |e: LogEntry| passes(filter, e);
    let mut r: Vec<LogEntry> = Vec::new();
    let mut i: usize = 0;
    assert(entries@.take(0).filter(p) =~= Seq::<LogEntry>::empty()) by {
        reveal(Seq::filter);
    }
    while i < entries.len()
        invariant
            i <= entries@.len(),
            p == |e: LogEntry| passes(filter, e),
            r@ =~= entries@.take(i as int).filter(p),
        decreases entries@.len() - i,
    {
        assert(entries@.take(i + 1).drop_last() =~= entries@.take(i as int));
        reveal(Seq::filter);
        let shown: bool = match filter {
            LogFilter::All => true,
            LogFilter::Completed => match entries[i].status {
                QueueStatus::Completed => true,
                _ => false,
            },
            LogFilter::Failed => match entries[i].status {
                QueueStatus::Failed => true,
                _ => false,
            },
        };
        if shown {
            r.push(entries[i].clone());
        }
        i += 1;
    }
    assert(entries@.take(entries@.len() as int) =~= entries@);
    r
}

// ── Laws ────────────────────────────────────────────────────────────────────

/// An entry of the log shows the name of the file, when it was finished or else
/// queued, what became of it and what went wrong.
pub proof fn law_log_shows_what_became_of_a_file(e: LogEntry, q: db::QueueRow)
    requires
        shows_entry(e, q),
    ensures
        paths::path_file_name(q.file_path) matches Some(n) ==> e.filename@ == n,
        q.completed_at matches Some(t) ==> e.timestamp@ == t,
        q.completed_at is None ==> e.timestamp@ == q.queued_at,
        e.status == q.status,
        text::opt_text(e.error) == q.error_message,
{
}

/// The filter of the log leaves all entries, or those that are completed, or those
/// that failed.
pub proof fn law_log_is_filtered_by_status(v: Seq<LogEntry>, filter: LogFilter, e: LogEntry)
    ensures
        v.filter(|e: LogEntry| passes(filter, e)).contains(e) <==> v.contains(e) && match filter {
            LogFilter::All => true,
            LogFilter::Completed => e.status is Completed,
            LogFilter::Failed => e.status is Failed,
        },
{
    text::lemma_filter_keeps(v, |e: LogEntry| passes(filter, e), e);
}

} // verus!
