//! The initial scan: every file that is already in a watched folder is offered
//! to the upload queue.
//!
//! The scan is a state machine. [`ScanRun::next_dir`] gives the next directory
//! to read, [`ScanRun::take_entries`] the files of it to offer, and
//! [`ScanRun::report`] counts what came of each.

use vstd::prelude::*;

use crate::app::watching;
use crate::app::watching::filter_of;
use crate::db;
use crate::db::WatchedFolder;
use crate::paths;
use crate::text;
use crate::text::str_eq;
use crate::upload::trash::TRASH_DIR_NAME;
use crate::watch::filter;
use crate::watch::filter::{FileFacts, FileFilter, FilterRules};
use crate::watch::folder::WatchEvent;

verus! {

broadcast use vstd::seq::group_seq_axioms;

/// A folder to scan.
#[derive(Debug)]
pub struct ScanFolder {
    pub path: String,
    pub id: i64,
    /// Whether cloud-storage placeholders are left out.
    pub ignore_online: bool,
    /// The folder's own patterns, as they are stored.
    pub include_patterns: Option<String>,
    pub exclude_patterns: Option<String>,
}

/// Whether a folder leaves out cloud-storage placeholders in a scan. `stored` is
/// the setting of the folder; one that cannot be read counts as set.
pub fn scan_ignores_online(stored: Option<bool>) -> (r: bool)
    ensures
        r == (stored != Some(false)),
{
    match stored {
        Some(flag) => flag,
        None => true,
    }
}

/// How a watched folder is scanned. `path` is the path under which it is
/// watched, `stored` what the database holds of it; one that cannot be read has
/// no patterns and leaves out cloud-storage placeholders.
pub fn scan_folder(path: &str, id: i64, stored: Option<WatchedFolder>) -> (r: ScanFolder)
    ensures
        scan_root(r) == (match stored {
            Some(f) => root_of(path@, id, f@),
            None => ScanRoot {
                path: path@,
                id,
                ignore_online: true,
                include_patterns: None,
                exclude_patterns: None,
            },
        }),
{
    let path: String = path.to_owned();
    match stored {
        Some(f) => ScanFolder {
            path,
            id,
            ignore_online: scan_ignores_online(Some(f.ignore_online_files)),
            include_patterns: f.include_patterns,
            exclude_patterns: f.exclude_patterns,
        },
        None => ScanFolder {
            path,
            id,
            ignore_online: scan_ignores_online(None),
            include_patterns: None,
            exclude_patterns: None,
        },
    }
}

/// An entry of a directory that is scanned.
#[derive(Debug)]
pub struct ScanEntry {
    pub path: String,
    pub is_dir: bool,
    pub is_file: bool,
    /// What the filesystem says of the file, where it can say.
    pub facts: Option<FileFacts>,
}

/// What came of offering a file to the queue.
#[derive(Debug, Clone, Copy, PartialEq, Eq, Structural)]
pub enum ScanOutcome {
    /// It was queued.
    Enqueued,
    /// It was uploaded before.
    Skipped,
    /// It could not be processed.
    Failed,
}

/// How many files were offered, and what came of them.
#[derive(Debug, Clone, Copy, PartialEq, Eq, Structural)]
pub struct ScanCounts {
    pub scanned: u64,
    pub enqueued: u64,
    pub skipped: u64,
    pub errors: u64,
}

impl ScanCounts {
    /// Every file that was offered was counted once.
    pub open spec fn wf(self) -> bool {
        self.scanned == self.enqueued + self.skipped + self.errors
    }
}

/// A scan.
pub struct ScanRun {
    folders: Vec<ScanFolder>,
    started: usize,
    stack: Vec<String>,
    counts: ScanCounts,
}

/// The contents of a [`ScanFolder`].
pub struct ScanRoot {
    pub path: Seq<char>,
    pub id: i64,
    pub ignore_online: bool,
    pub include_patterns: Option<Seq<char>>,
    pub exclude_patterns: Option<Seq<char>>,
}

/// The state of a scan.
#[verifier::ext_equal]
pub struct ScanState {
    /// The folders, in the order in which they are scanned.
    pub folders: Seq<ScanRoot>,
    /// How many folders were started. The last of them is being scanned.
    pub started: int,
    /// The directories that are still to be read, the next one last.
    pub stack: Seq<Seq<char>>,
    pub counts: ScanCounts,
}

/// The contents of a [`ScanFolder`].
pub open spec fn scan_root(f: ScanFolder) -> ScanRoot {
    ScanRoot {
        path: f.path@,
        id: f.id,
        ignore_online: f.ignore_online,
        include_patterns: text::opt_text(f.include_patterns),
        exclude_patterns: text::opt_text(f.exclude_patterns),
    }
}

/// The contents of a list of folders.
pub open spec fn scan_roots(v: Seq<ScanFolder>) -> Seq<ScanRoot> {
    v.map_values(|f: ScanFolder| scan_root(f))
}

/// How the folder of a row of the database is scanned, where it is watched
/// under `path`.
pub open spec fn root_of(path: Seq<char>, id: i64, row: db::FolderRow) -> ScanRoot {
    ScanRoot {
        path,
        id,
        ignore_online: row.ignore_online_files,
        include_patterns: row.include_patterns,
        exclude_patterns: row.exclude_patterns,
    }
}

impl View for ScanRun {
    type V = ScanState;

    closed spec fn view(&self) -> ScanState {
        ScanState {
            folders: scan_roots(self.folders@),
            started: self.started as int,
            stack: text::texts(self.stack@),
            counts: self.counts,
        }
    }
}

impl ScanState {
    /// The invariant of a scan: directories wait only while a folder is being
    /// scanned, and every offered file was counted.
    pub open spec fn valid(self) -> bool {
        &&& 0 <= self.started <= self.folders.len()
        &&& self.started == 0 ==> self.stack.len() == 0
        &&& self.counts.wf()
    }
}

/// The state in which a scan begins.
pub open spec fn scan_start(folders: Seq<ScanRoot>) -> ScanState {
    ScanState {
        folders,
        started: 0,
        stack: Seq::empty(),
        counts: ScanCounts { scanned: 0, enqueued: 0, skipped: 0, errors: 0 },
    }
}

/// The directory that is read next: the one that was found last, or else the
/// next folder.
pub open spec fn dir_of(s: ScanState) -> Option<Seq<char>> {
    if s.stack.len() > 0 {
        Some(s.stack.last())
    } else if s.started < s.folders.len() {
        Some(s.folders[s.started].path)
    } else {
        None
    }
}

/// The state after the next directory was given out.
pub open spec fn after_dir(s: ScanState) -> ScanState {
    if s.stack.len() > 0 {
        ScanState { stack: s.stack.drop_last(), ..s }
    } else if s.started < s.folders.len() {
        ScanState { started: s.started + 1, ..s }
    } else {
        s
    }
}

/// The filter of a folder that is scanned: that of its watcher.
pub open spec fn root_rules(root: ScanRoot) -> FilterRules {
    watching::rules_of(root.ignore_online, root.include_patterns, root.exclude_patterns)
}

/// The filter of the folder that is being scanned.
pub open spec fn scan_rules(s: ScanState) -> FilterRules {
    root_rules(s.folders[s.started - 1])
}

/// Whether an entry is a directory that is scanned too. The trash is not.
pub open spec fn descends(e: ScanEntry) -> bool {
    e.is_dir && paths::path_file_name(e.path@) != Some(TRASH_DIR_NAME@)
}

/// Whether an entry is a file that is offered to the queue.
pub open spec fn offered(rules: FilterRules, e: ScanEntry) -> bool {
    !e.is_dir && e.is_file && filter::included(rules, e.path@, e.facts)
}

/// The directories among entries that are scanned too, in order.
pub open spec fn dirs_among(v: Seq<ScanEntry>) -> Seq<Seq<char>>
    decreases v.len(),
{
    if v.len() == 0 {
        Seq::empty()
    } else if descends(v.last()) {
        dirs_among(v.drop_last()).push(v.last().path@)
    } else {
        dirs_among(v.drop_last())
    }
}

/// The files among entries that are offered to the queue, in order.
pub open spec fn files_among(rules: FilterRules, v: Seq<ScanEntry>) -> Seq<Seq<char>>
    decreases v.len(),
{
    if v.len() == 0 {
        Seq::empty()
    } else if offered(rules, v.last()) {
        files_among(rules, v.drop_last()).push(v.last().path@)
    } else {
        files_among(rules, v.drop_last())
    }
}

/// The counts after one more file.
pub open spec fn counted(c: ScanCounts, o: ScanOutcome) -> ScanCounts {
    ScanCounts {
        scanned: (c.scanned + 1) as u64,
        enqueued: if o is Enqueued {
            (c.enqueued + 1) as u64
        } else {
            c.enqueued
        },
        skipped: if o is Skipped {
            (c.skipped + 1) as u64
        } else {
            c.skipped
        },
        errors: if o is Failed {
            (c.errors + 1) as u64
        } else {
            c.errors
        },
    }
}

impl ScanRun {
    /// The invariant of a scan, see [`ScanState::valid`].
    pub open spec fn wf(&self) -> bool {
        self@.valid()
    }

    /// Begin a scan.
    pub fn start(folders: Vec<ScanFolder>) -> (r: ScanRun)
        ensures
            r.wf(),
            r@ == scan_start(scan_roots(folders@)),
    {
        let r: ScanRun = ScanRun {
            folders,
            started: 0,
            stack: Vec::new(),
            counts: ScanCounts { scanned: 0, enqueued: 0, skipped: 0, errors: 0 },
        };
        assert(r@ =~= scan_start(scan_roots(folders@)));
        r
    }

    /// The next directory to read. `None` where the scan is over.
    pub fn next_dir(&mut self) -> (r: Option<String>)
        requires
            old(self).wf(),
        ensures
            final(self).wf(),
            text::opt_text(r) == dir_of(old(self)@),
            final(self)@ == after_dir(old(self)@),
            r is Some ==> final(self)@.started > 0,
    {
        let ghost s = self@;
        match self.stack.pop() {
            Some(d) => {
                assert(self@.stack =~= s.stack.drop_last());
                assert(d@ == s.stack.last());
                Some(d)
            },
            None => {
                assert(self@.stack =~= s.stack);
                if self.started < self.folders.len() {
                    let d: String = self.folders[self.started].path.clone();
                    assert(s.folders[s.started].path == d@);
                    self.started = self.started + 1;
                    assert(self@ =~= after_dir(s));
                    Some(d)
                } else {
                    assert(self@ =~= s);
                    None
                }
            },
        }
    }

    /// The id of the folder that is being scanned.
    pub fn folder_id(&self) -> (r: Option<i64>)
        requires
            self.wf(),
        ensures
            r == (if self@.started > 0 {
                Some(self@.folders[self@.started - 1].id)
            } else {
                None
            }),
    {
        if self.started > 0 {
            assert(self@.folders[self@.started - 1].id == self.folders@[self.started - 1].id);
            Some(self.folders[self.started - 1].id)
        } else {
            None
        }
    }

    /// Take in the entries of the directory that was read. Returns the files to
    /// offer to the queue.
    pub fn take_entries(&mut self, entries: &Vec<ScanEntry>) -> (r: Vec<String>)
        requires
            old(self).wf(),
            old(self)@.started > 0,
        ensures
            final(self).wf(),
            text::texts(r@) == files_among(scan_rules(old(self)@), entries@),
            final(self)@ == (ScanState {
                stack: old(self)@.stack + dirs_among(entries@),
                ..old(self)@
            }),
    {
        let ghost s = self@;
        let folder: &ScanFolder = &self.folders[self.started - 1];
        assert(s.folders[s.started - 1] == scan_root(*folder));
        let filter: FileFilter = filter_of(
            folder.ignore_online,
            &folder.include_patterns,
            &folder.exclude_patterns,
        );
        assert(filter@ == scan_rules(s));
        let mut r: Vec<String> = Vec::new();
        let mut i: usize = 0;
        assert(entries@.take(0) =~= Seq::<ScanEntry>::empty());
        assert(s.stack + dirs_among(entries@.take(0)) =~= s.stack);
        while i < entries.len()
            invariant
                i <= entries@.len(),
                s.valid(),
                s.started > 0,
                filter@ == scan_rules(s),
                text::texts(r@) =~= files_among(scan_rules(s), entries@.take(i as int)),
                self@.folders == s.folders,
                self@.started == s.started,
                self@.counts == s.counts,
                self@.stack =~= s.stack + dirs_among(entries@.take(i as int)),
            decreases entries@.len() - i,
        {
            let e: &ScanEntry = &entries[i];
            assert(entries@.take(i + 1).drop_last() =~= entries@.take(i as int));
            assert(entries@.take(i + 1).last() == *e);
            let ghost before = self.stack@;
            if e.is_dir {
                let trash: bool = match paths::file_name(&e.path) {
                    Some(n) => str_eq(&n, TRASH_DIR_NAME),
                    None => false,
                };
                if !trash {
                    self.stack.push(e.path.clone());
                    assert(text::texts(self.stack@) =~= text::texts(before).push(e.path@));
                }
            } else if e.is_file && filter.should_include(&e.path, e.facts) {
                let ghost found = r@;
                r.push(e.path.clone());
                assert(text::texts(r@) =~= text::texts(found).push(e.path@));
            }
            i += 1;
        }
        assert(entries@.take(entries@.len() as int) =~= entries@);
        r
    }

    /// Count what came of offering a file.
    pub fn report(&mut self, outcome: ScanOutcome)
        requires
            old(self).wf(),
            old(self)@.counts.scanned < u64::MAX,
        ensures
            final(self).wf(),
            final(self)@ == (ScanState {
                counts: counted(old(self)@.counts, outcome),
                ..old(self)@
            }),
    {
        let c: ScanCounts = self.counts;
        self.counts = ScanCounts {
            scanned: c.scanned + 1,
            enqueued: match outcome {
                ScanOutcome::Enqueued => c.enqueued + 1,
                _ => c.enqueued,
            },
            skipped: match outcome {
                ScanOutcome::Skipped => c.skipped + 1,
                _ => c.skipped,
            },
            errors: match outcome {
                ScanOutcome::Failed => c.errors + 1,
                _ => c.errors,
            },
        };
    }

    /// The counts so far.
    pub fn counts(&self) -> (r: ScanCounts)
        ensures
            r == self@.counts,
    {
        self.counts
    }
}

// ── Watch events ────────────────────────────────────────────────────────────

/// The file that a watch event offers to the queue. Files that went away and
/// errors offer none.
pub fn file_to_queue(event: &WatchEvent) -> (r: Option<String>)
    ensures
        text::opt_text(r) == (match *event {
            WatchEvent::FileReady(p) => Some(p@),
            _ => None,
        }),
{
    match event {
        WatchEvent::FileReady(p) => Some(p.clone()),
        _ => None,
    }
}

// ── Laws ────────────────────────────────────────────────────────────────────

/// No directory that is the trash is scanned: every directory that waits after
/// entries were taken in waited before, or is a directory among the entries
/// with another name.
pub proof fn law_trash_is_not_scanned(v: Seq<ScanEntry>, k: int)
    requires
        0 <= k < dirs_among(v).len(),
    ensures
        paths::path_file_name(dirs_among(v)[k]) != Some(TRASH_DIR_NAME@),
        exists|i: int|
            0 <= i < v.len() && (#[trigger] v[i]).is_dir && v[i].path@ == dirs_among(v)[k],
    decreases v.len(),
{
    let before = dirs_among(v.drop_last());
    if k < before.len() {
        law_trash_is_not_scanned(v.drop_last(), k);
        let i = choose|i: int|
            0 <= i < v.drop_last().len() && (#[trigger] v.drop_last()[i]).is_dir
                && v.drop_last()[i].path@ == before[k];
        assert(v[i] == v.drop_last()[i]);
        assert(dirs_among(v)[k] == before[k]);
    } else {
        assert(v[v.len() - 1] == v.last());
    }
}

/// Only files that the filter lets through are offered, and none from the
/// trash.
pub proof fn law_offered_files_pass_the_filter(rules: FilterRules, v: Seq<ScanEntry>, k: int)
    requires
        0 <= k < files_among(rules, v).len(),
    ensures
        !filter::in_trash(files_among(rules, v)[k]),
        exists|i: int|
            0 <= i < v.len() && (#[trigger] v[i]).path@ == files_among(rules, v)[k] && offered(
                rules,
                v[i],
            ),
    decreases v.len(),
{
    let before = files_among(rules, v.drop_last());
    if k < before.len() {
        law_offered_files_pass_the_filter(rules, v.drop_last(), k);
        let i = choose|i: int|
            0 <= i < v.drop_last().len() && (#[trigger] v.drop_last()[i]).path@ == before[k]
                && offered(rules, v.drop_last()[i]);
        assert(v[i] == v.drop_last()[i]);
        assert(files_among(rules, v)[k] == before[k]);
    } else {
        assert(v[v.len() - 1] == v.last());
    }
}

/// A scan offers the files that the watcher of the folder would offer: its
/// filter is that of the folder, with the folder's own patterns. So no file that
/// one of the exclude patterns matches is offered.
pub proof fn law_scan_filters_as_the_watcher(path: Seq<char>, row: db::FolderRow, e: ScanEntry)
    ensures
        root_rules(root_of(path, row.id, row)) == watching::target_of(row).rules,
        filter::any_matches(watching::folder_rules(row).exclude_globs, e.path@) ==> !offered(
            root_rules(root_of(path, row.id, row)),
            e,
        ),
{
}

/// Every folder is scanned: while one was not started, there is a directory to
/// read, and the scan is over only once all were started and no directory
/// waits.
pub proof fn law_scan_covers_every_folder(s: ScanState)
    requires
        s.valid(),
    ensures
        dir_of(s) is None <==> s.started == s.folders.len() && s.stack.len() == 0,
        after_dir(s).valid(),
{
}

/// Every directory that is found is entered, but for a trash directory.
pub proof fn law_every_directory_is_entered(v: Seq<ScanEntry>, i: int)
    requires
        0 <= i < v.len(),
        v[i].is_dir,
        paths::path_file_name(v[i].path@) != Some(".immichsync-trash"@),
    ensures
        dirs_among(v).contains(v[i].path@),
    decreases v.len(),
{
    let all = dirs_among(v);
    let before = dirs_among(v.drop_last());
    if i == v.len() - 1 {
        assert(all[before.len() as int] == v[i].path@);
    } else {
        law_every_directory_is_entered(v.drop_last(), i);
        let k = choose|k: int| 0 <= k < before.len() && before[k] == v[i].path@;
        assert(all[k] == v[i].path@);
    }
}

/// Every file that is found and that the filter includes is offered for upload.
pub proof fn law_every_included_file_is_offered(rules: FilterRules, v: Seq<ScanEntry>, i: int)
    requires
        0 <= i < v.len(),
        v[i].is_file,
        !v[i].is_dir,
        filter::included(rules, v[i].path@, v[i].facts),
    ensures
        files_among(rules, v).contains(v[i].path@),
    decreases v.len(),
{
    let all = files_among(rules, v);
    let before = files_among(rules, v.drop_last());
    if i == v.len() - 1 {
        assert(all[before.len() as int] == v[i].path@);
    } else {
        law_every_included_file_is_offered(rules, v.drop_last(), i);
        let k = choose|k: int| 0 <= k < before.len() && before[k] == v[i].path@;
        assert(all[k] == v[i].path@);
    }
}

/// Entries are seen to one by one and in order: another one adds at most itself,
/// to the directories or to the files, at their end.
pub proof fn law_entries_are_seen_to_in_order(rules: FilterRules, v: Seq<ScanEntry>, e: ScanEntry)
    ensures
        dirs_among(Seq::empty()).len() == 0,
        files_among(rules, Seq::empty()).len() == 0,
        dirs_among(v.push(e)) == dirs_among(v) || dirs_among(v.push(e)) == dirs_among(v).push(
            e.path@,
        ),
        files_among(rules, v.push(e)) == files_among(rules, v) || files_among(rules, v.push(e))
            == files_among(rules, v).push(e.path@),
        !e.is_dir ==> dirs_among(v.push(e)) == dirs_among(v),
        e.is_dir || !e.is_file ==> files_among(rules, v.push(e)) == files_among(rules, v),
{
    assert(v.push(e).drop_last() =~= v);
}

/// A folder is begun only when the one before it is read to its end, and folders
/// are read in their order, from the first to the last.
pub proof fn law_folders_are_scanned_in_order(s: ScanState)
    requires
        s.valid(),
    ensures
        s.stack.len() > 0 ==> dir_of(s) == Some(s.stack.last()) && after_dir(s).stack
            == s.stack.drop_last() && after_dir(s).started == s.started,
        s.stack.len() == 0 && s.started < s.folders.len() ==> dir_of(s) == Some(
            s.folders[s.started].path,
        ) && after_dir(s).started == s.started + 1 && after_dir(s).stack == s.stack,
        after_dir(s).folders == s.folders,
        after_dir(s).counts == s.counts,
        scan_start(s.folders).started == 0,
        scan_start(s.folders).folders == s.folders,
        scan_start(s.folders).stack.len() == 0,
        scan_start(s.folders).counts.scanned == 0,
{
}

/// A file counts as scanned, and as just one of queued, skipped and failed.
pub proof fn law_outcomes_are_counted(c: ScanCounts, o: ScanOutcome)
    requires
        c.wf(),
        c.scanned < u64::MAX,
    ensures
        counted(c, o).scanned == c.scanned + 1,
        counted(c, o).wf(),
        o is Enqueued ==> counted(c, o).enqueued == c.enqueued + 1,
        o is Skipped ==> counted(c, o).skipped == c.skipped + 1,
        o is Failed ==> counted(c, o).errors == c.errors + 1,
        !(o is Enqueued) ==> counted(c, o).enqueued == c.enqueued,
        !(o is Skipped) ==> counted(c, o).skipped == c.skipped,
        !(o is Failed) ==> counted(c, o).errors == c.errors,
{
}

/// A folder is scanned with its own settings: those of the folder that was begun
/// last.
pub proof fn law_scan_uses_the_settings_of_the_folder(s: ScanState, p: Seq<char>)
    requires
        s.valid(),
        s.started > 0,
    ensures
        ({
            let root = s.folders[s.started - 1];
            &&& scan_rules(s).min_size == 1024
            &&& scan_rules(s).ignore_online == root.ignore_online
            &&& scan_rules(s).include_globs.contains(p) <==> filter::stored_patterns(
                root.include_patterns,
            ).contains(p) && filter::glob_compiles(p)
            &&& scan_rules(s).exclude_globs.contains(p) <==> filter::stored_patterns(
                root.exclude_patterns,
            ).contains(p) && filter::glob_compiles(p)
        }),
{
    let root = s.folders[s.started - 1];
    let keep = |p: Seq<char>| filter::glob_compiles(p);
    text::lemma_filter_keeps(filter::stored_patterns(root.include_patterns), keep, p);
    text::lemma_filter_keeps(filter::stored_patterns(root.exclude_patterns), keep, p);
}

/// A folder is scanned with the settings that are stored for it.
pub proof fn law_scan_takes_the_stored_settings(path: Seq<char>, id: i64, row: db::FolderRow)
    ensures
        root_of(path, id, row).path == path,
        root_of(path, id, row).id == id,
        root_of(path, id, row).ignore_online == row.ignore_online_files,
        root_of(path, id, row).include_patterns == row.include_patterns,
        root_of(path, id, row).exclude_patterns == row.exclude_patterns,
{
}

/// The contents of a folder to scan are those of its fields, each as it is.
pub proof fn law_roots_hold_their_fields(f: ScanFolder, v: Seq<ScanFolder>, i: int)
    ensures
        scan_root(f).path == f.path@,
        scan_root(f).id == f.id,
        scan_root(f).ignore_online == f.ignore_online,
        scan_root(f).include_patterns == text::opt_text(f.include_patterns),
        scan_root(f).exclude_patterns == text::opt_text(f.exclude_patterns),
        scan_roots(v).len() == v.len(),
        0 <= i < v.len() ==> scan_roots(v)[i] == scan_root(v[i]),
{
}

} // verus!
