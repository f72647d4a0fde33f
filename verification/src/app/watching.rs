//! Which folders are watched, and which watched folder a file belongs to.
//!
//! The settings window changes the watched folders in the database. The running
//! application compares them with what it watches, and starts the watchers anew
//! where the two differ.

use vstd::prelude::*;

use crate::db;
use crate::db::{WatchMode, WatchedFolder};
use crate::paths;
use crate::paths::same_path;
use crate::text;
use crate::watch::engine;
use crate::watch::engine::{EngineModel, WatchEngine, WatchError};
use crate::watch::filter;
use crate::watch::filter::{parse_patterns_json, FileFilter, FilterRules};

verus! {

broadcast use vstd::seq::group_seq_axioms;

// ── Missing folders ─────────────────────────────────────────────────────────

/// Note that a watched folder is missing. `true` the first time for each path:
/// then the user is warned.
pub fn warn_missing_folder_once(seen: &mut Vec<String>, path: &str) -> (r: bool)
    ensures
        r == !paths::path_keys(text::texts(old(seen)@)).contains(paths::path_key(path@)),
        text::texts(final(seen)@) == (if r {
            text::texts(old(seen)@).push(path@)
        } else {
            text::texts(old(seen)@)
        }),
        paths::path_keys(text::texts(old(seen)@)).no_duplicates() ==> paths::path_keys(
            text::texts(final(seen)@),
        ).no_duplicates(),
{
    if position_of(seen, path).is_some() {
        return false;
    }
    let ghost before = seen@;
    seen.push(path.to_owned());
    assert(text::texts(seen@) =~= text::texts(before).push(path@));
    assert(paths::path_keys(text::texts(seen@)) =~= paths::path_keys(text::texts(before)).push(
        paths::path_key(path@),
    ));
    true
}

/// The position of a path in a list.
fn position_of(list: &Vec<String>, s: &str) -> (r: Option<usize>)
    ensures
        match r {
            Some(k) => k < list@.len() && paths::same_components(list@[k as int]@, s@),
            None => true,
        },
        r is Some == paths::path_keys(text::texts(list@)).contains(paths::path_key(s@)),
{
    let ghost all = paths::path_keys(text::texts(list@));
    let mut i: usize = 0;
    while i < list.len()
        invariant
            i <= list@.len(),
            all == paths::path_keys(text::texts(list@)),
            forall|j: int| 0 <= j < i ==> all[j] != paths::path_key(s@),
        decreases list@.len() - i,
    {
        assert(all[i as int] == paths::path_key(list@[i as int]@));
        if same_path(&list[i], s) {
            return Some(i);
        }
        i += 1;
    }
    assert(!all.contains(paths::path_key(s@)));
    None
}

// ── What to watch ───────────────────────────────────────────────────────────

/// What the filesystem says of the path of a watched folder.
#[derive(Debug)]
pub struct DiskPath {
    pub exists: bool,
    /// The canonical form of the path, where the filesystem can give it.
    pub canonical: Option<String>,
}

/// Whether a folder is watched: it is enabled and exists.
pub open spec fn selected(row: db::FolderRow, on_disk: DiskPath) -> bool {
    row.enabled && on_disk.exists
}

/// The path under which a folder is watched.
pub open spec fn key_of(row: db::FolderRow, on_disk: DiskPath) -> Seq<char> {
    engine::registered_key(row.path, text::opt_text(on_disk.canonical))
}

/// The filter of a folder with these settings: its own patterns, as they are
/// stored, and whether it leaves out cloud-storage placeholders.
pub open spec fn rules_of(
    ignore_online: bool,
    include_patterns: Option<Seq<char>>,
    exclude_patterns: Option<Seq<char>>,
) -> FilterRules {
    FilterRules {
        min_size: filter::DEFAULT_MIN_SIZE,
        ignore_online,
        include_globs: filter::stored_patterns(include_patterns).filter(
            |p: Seq<char>| filter::glob_compiles(p),
        ),
        exclude_globs: filter::stored_patterns(exclude_patterns).filter(
            |p: Seq<char>| filter::glob_compiles(p),
        ),
    }
}

/// The filter of a folder, see [`rules_of`].
pub open spec fn folder_rules(row: db::FolderRow) -> FilterRules {
    rules_of(row.ignore_online_files, row.include_patterns, row.exclude_patterns)
}

/// The filter of a folder with these settings.
pub fn filter_of(
    ignore_online: bool,
    include_patterns: &Option<String>,
    exclude_patterns: &Option<String>,
) -> (r: FileFilter)
    ensures
        r@ == rules_of(
            ignore_online,
            text::opt_text(*include_patterns),
            text::opt_text(*exclude_patterns),
        ),
{
    let includes: Vec<String> = parse_patterns_json(as_text(include_patterns));
    let excludes: Vec<String> = parse_patterns_json(as_text(exclude_patterns));
    let r: FileFilter = FileFilter::new().with_include_patterns(includes).with_exclude_patterns(
        excludes,
    ).with_ignore_online_files(ignore_online);
    assert(r@ =~= rules_of(
        ignore_online,
        text::opt_text(*include_patterns),
        text::opt_text(*exclude_patterns),
    ));
    r
}

/// The filter of a folder.
pub fn folder_filter(folder: &WatchedFolder) -> (r: FileFilter)
    ensures
        r@ == folder_rules(folder@),
{
    filter_of(folder.ignore_online_files, &folder.include_patterns, &folder.exclude_patterns)
}

fn as_text(o: &Option<String>) -> (r: Option<&str>)
    ensures
        r.deep_view() == text::opt_text(*o),
{
    match o {
        Some(s) => Some(s.as_str()),
        None => None,
    }
}

/// A folder to watch.
pub struct WatchTarget {
    pub folder_id: i64,
    pub path: String,
    /// Whether it is watched as a network folder.
    pub is_network: bool,
    pub filter: FileFilter,
}

/// The contents of a [`WatchTarget`].
#[verifier::ext_equal]
pub struct TargetRow {
    pub folder_id: i64,
    pub path: Seq<char>,
    pub is_network: bool,
    pub rules: FilterRules,
}

/// The contents of a [`WatchTarget`].
pub open spec fn target_row(t: WatchTarget) -> TargetRow {
    TargetRow {
        folder_id: t.folder_id,
        path: t.path@,
        is_network: t.is_network,
        rules: t.filter@,
    }
}

/// The contents of several [`WatchTarget`]s.
pub open spec fn target_rows(v: Seq<WatchTarget>) -> Seq<TargetRow> {
    v.map_values(|t: WatchTarget| target_row(t))
}

/// How a folder is watched. One in the mode `Poll` is watched as a network
/// folder.
pub open spec fn target_of(row: db::FolderRow) -> TargetRow {
    TargetRow {
        folder_id: row.id,
        path: row.path,
        is_network: row.watch_mode is Poll,
        rules: folder_rules(row),
    }
}

/// The folders to watch, in order.
pub open spec fn targets_of(rows: Seq<db::FolderRow>, on_disk: Seq<DiskPath>) -> Seq<TargetRow>
    decreases rows.len(),
{
    if rows.len() == 0 {
        Seq::empty()
    } else {
        let before = targets_of(rows.drop_last(), on_disk);
        if selected(rows.last(), on_disk[rows.len() - 1]) {
            before.push(target_of(rows.last()))
        } else {
            before
        }
    }
}

/// The folders to watch, in order: those that are enabled and exist.
pub fn watch_targets(folders: &Vec<WatchedFolder>, on_disk: &Vec<DiskPath>) -> (r: Vec<WatchTarget>)
    requires
        on_disk@.len() == folders@.len(),
    ensures
        target_rows(r@) == targets_of(db::folder_rows(folders@), on_disk@),
{
    let ghost rows = db::folder_rows(folders@);
    let mut r: Vec<WatchTarget> = Vec::new();
    let mut i: usize = 0;
    assert(rows.take(0) =~= Seq::<db::FolderRow>::empty());
    while i < folders.len()
        invariant
            i <= folders@.len(),
            on_disk@.len() == folders@.len(),
            rows == db::folder_rows(folders@),
            target_rows(r@) =~= targets_of(rows.take(i as int), on_disk@),
        decreases folders@.len() - i,
    {
        let f: &WatchedFolder = &folders[i];
        assert(rows[i as int] == f@);
        assert(rows.take(i + 1).drop_last() =~= rows.take(i as int));
        if f.enabled && on_disk[i].exists {
            let ghost before = r@;
            let is_network: bool = match f.watch_mode {
                WatchMode::Poll => true,
                _ => false,
            };
            r.push(
                WatchTarget {
                    folder_id: f.id,
                    path: f.path.clone(),
                    is_network,
                    filter: folder_filter(f),
                },
            );
            assert(target_row(r@.last()) == target_of(rows[i as int]));
            assert(target_rows(r@) =~= target_rows(before).push(target_row(r@.last())));
        }
        i += 1;
    }
    assert(rows.take(rows.len() as int) =~= rows);
    r
}

/// The paths of the folders that are enabled but missing, in order.
pub open spec fn missing_of(rows: Seq<db::FolderRow>, on_disk: Seq<DiskPath>) -> Seq<Seq<char>>
    decreases rows.len(),
{
    if rows.len() == 0 {
        Seq::empty()
    } else {
        let before = missing_of(rows.drop_last(), on_disk);
        if rows.last().enabled && !on_disk[rows.len() - 1].exists {
            before.push(rows.last().path)
        } else {
            before
        }
    }
}

/// The paths of the folders that are enabled but missing, in order.
pub fn missing_folders(folders: &Vec<WatchedFolder>, on_disk: &Vec<DiskPath>) -> (r: Vec<String>)
    requires
        on_disk@.len() == folders@.len(),
    ensures
        text::texts(r@) == missing_of(db::folder_rows(folders@), on_disk@),
{
    let ghost rows = db::folder_rows(folders@);
    let mut r: Vec<String> = Vec::new();
    let mut i: usize = 0;
    assert(rows.take(0) =~= Seq::<db::FolderRow>::empty());
    while i < folders.len()
        invariant
            i <= folders@.len(),
            on_disk@.len() == folders@.len(),
            rows == db::folder_rows(folders@),
            text::texts(r@) =~= missing_of(rows.take(i as int), on_disk@),
        decreases folders@.len() - i,
    {
        assert(rows[i as int] == folders@[i as int]@);
        assert(rows.take(i + 1).drop_last() =~= rows.take(i as int));
        if folders[i].enabled && !on_disk[i].exists {
            let ghost before = r@;
            r.push(folders[i].path.clone());
            assert(text::texts(r@) =~= text::texts(before).push(rows[i as int].path));
        }
        i += 1;
    }
    assert(rows.take(rows.len() as int) =~= rows);
    r
}

/// The label of the folder that is watched where the user has chosen none.
pub const DEFAULT_LABEL: &'static str = "Pictures";

/// The folder to add and watch where the database holds none: the user's
/// pictures, where the system knows them and they exist.
pub fn default_folder(no_folders: bool, pictures: Option<&str>, exists: bool) -> (r: Option<String>)
    ensures
        text::opt_text(r) == (if no_folders && exists {
            pictures.deep_view()
        } else {
            None
        }),
{
    if no_folders && exists {
        text::owned_opt(pictures)
    } else {
        None
    }
}

/// How the default folder is watched, once it has the id `folder_id`.
pub fn default_target(folder_id: i64, pictures: &str) -> (r: WatchTarget)
    ensures
        target_row(r) == (TargetRow {
            folder_id,
            path: pictures@,
            is_network: false,
            rules: FilterRules {
                min_size: filter::DEFAULT_MIN_SIZE,
                ignore_online: false,
                include_globs: Seq::empty(),
                exclude_globs: Seq::empty(),
            },
        }),
{
    WatchTarget {
        folder_id,
        path: pictures.to_owned(),
        is_network: false,
        filter: FileFilter::new(),
    }
}

// ── Folders by path ─────────────────────────────────────────────────────────

/// A watched path and the id of its folder.
#[derive(Debug)]
pub struct FolderEntry {
    pub path: String,
    pub id: i64,
}

/// The contents of a [`FolderEntry`].
pub struct EntryRow {
    pub path: Seq<char>,
    pub id: i64,
}

/// The ids of the watched folders, by the paths under which they are watched.
pub struct FolderMap {
    entries: Vec<FolderEntry>,
}

/// The contents of a list of entries.
pub open spec fn entry_rows(v: Seq<FolderEntry>) -> Seq<EntryRow> {
    v.map_values(|e: FolderEntry| EntryRow { path: e.path@, id: e.id })
}

/// The id that stands beside a path; that of the last entry for the path.
pub open spec fn id_at(entries: Seq<EntryRow>, path: Seq<char>) -> Option<i64>
    decreases entries.len(),
{
    if entries.len() == 0 {
        None
    } else if paths::same_components(entries.last().path, path) {
        Some(entries.last().id)
    } else {
        id_at(entries.drop_last(), path)
    }
}

impl View for FolderMap {
    type V = Seq<EntryRow>;

    closed spec fn view(&self) -> Seq<EntryRow> {
        entry_rows(self.entries@)
    }
}

impl FolderMap {
    /// No folders.
    pub fn new() -> (r: FolderMap)
        ensures
            r@ == Seq::<EntryRow>::empty(),
    {
        let r: FolderMap = FolderMap { entries: Vec::new() };
        assert(r@ =~= Seq::<EntryRow>::empty());
        r
    }

    /// Put an id beside a path, in place of an earlier one.
    pub fn insert(&mut self, path: &str, id: i64)
        ensures
            final(self)@ == old(self)@.push(EntryRow { path: path@, id }),
            id_at(final(self)@, path@) == Some(id),
            forall|p: Seq<char>|
                !paths::same_components(p, path@) ==> #[trigger] id_at(final(self)@, p) == id_at(
                    old(self)@,
                    p,
                ),
    {
        let ghost before = self@;
        self.entries.push(FolderEntry { path: path.to_owned(), id });
        assert(self@ =~= before.push(EntryRow { path: path@, id }));
        assert(self@.drop_last() =~= before);
    }

    /// The id that stands beside a path.
    pub fn get(&self, path: &str) -> (r: Option<i64>)
        ensures
            r == id_at(self@, path@),
    {
        let mut n: usize = self.entries.len();
        let ghost all = self@;
        assert(all.take(n as int) =~= all);
        while n > 0
            invariant
                n <= self.entries@.len(),
                all == entry_rows(self.entries@),
                id_at(all.take(n as int), path@) == id_at(all, path@),
            decreases n,
        {
            assert(all.take(n as int).last() == all[n - 1]);
            assert(all.take(n as int).drop_last() =~= all.take(n - 1));
            if same_path(&self.entries[n - 1].path, path) {
                return Some(self.entries[n - 1].id);
            }
            n -= 1;
        }
        None
    }

    /// The entries.
    pub fn entries(&self) -> (r: &Vec<FolderEntry>)
        ensures
            entry_rows(r@) == self@,
    {
        &self.entries
    }
}

impl Default for FolderMap {
    fn default() -> (r: FolderMap)
        ensures
            r@ == Seq::<EntryRow>::empty(),
    {
        FolderMap::new()
    }
}

/// Register the watcher of a folder. `start` is what came of starting it. A
/// folder whose watcher runs can be found by its path; one whose watcher does
/// not is left out of both.
pub fn register_folder(
    watchers: &mut WatchEngine,
    map: &mut FolderMap,
    target: &WatchTarget,
    canonical: Option<&str>,
    start: Result<(), String>,
) -> (r: Result<(), WatchError>)
    requires
        old(watchers).wf(),
    ensures
        final(watchers).wf(),
        ({
            let key = engine::registered_key(target.path@, canonical.deep_view());
            match r {
                Ok(_) => {
                    &&& start is Ok
                    &&& !old(watchers)@.watches(key)
                    &&& final(watchers)@ == engine::after_add(
                        old(watchers)@,
                        key,
                        target.is_network,
                    )
                    &&& final(map)@ == old(map)@.push(
                        EntryRow { path: key, id: target.folder_id },
                    )
                },
                Err(e) => {
                    &&& final(watchers)@ == old(watchers)@
                    &&& final(map)@ == old(map)@
                    &&& match e {
                        WatchError::AlreadyWatching(p) => p@ == key && old(watchers)@.watches(key),
                        WatchError::StartFailed { path, detail } => path@ == key && start == Err::<
                            (),
                            String,
                        >(detail) && !old(watchers)@.watches(key),
                        WatchError::NotWatching(_) => false,
                    }
                },
            }
        }),
{
    match watchers.add_folder(&target.path, canonical, target.is_network, start) {
        Ok(_) => {
            let key: &str = match canonical {
                Some(c) => c,
                None => target.path.as_str(),
            };
            map.insert(key, target.folder_id);
            Ok(())
        },
        Err(e) => Err(e),
    }
}

/// The id of the nearest directory above a path that is watched.
pub open spec fn nearest_folder(entries: Seq<EntryRow>, path: Seq<char>) -> Option<i64>
    decreases path.len(),
{
    match paths::path_parent(path) {
        Some(d) => if d.len() >= path.len() {
            None
        } else if id_at(entries, d) is Some {
            id_at(entries, d)
        } else {
            nearest_folder(entries, d)
        },
        None => None,
    }
}

/// The id of the watched folder that a file belongs to: the nearest directory
/// above it that is watched. `canonical` is the canonical form of the path,
/// where the filesystem can give it.
pub fn resolve_folder_id(file_path: &str, canonical: Option<&str>, folder_map: &FolderMap) -> (r:
    Option<i64>)
    ensures
        r == nearest_folder(
            folder_map@,
            engine::registered_key(file_path@, canonical.deep_view()),
        ),
{
    let mut at: String = match canonical {
        Some(c) => c.to_owned(),
        None => file_path.to_owned(),
    };
    let ghost start = at@;
    loop
        invariant
            nearest_folder(folder_map@, at@) == nearest_folder(folder_map@, start),
            start == engine::registered_key(file_path@, canonical.deep_view()),
        decreases at@.len(),
    {
        match paths::parent(&at) {
            None => {
                return None;
            },
            Some(d) => {
                let found: Option<i64> = folder_map.get(&d);
                if found.is_some() {
                    return found;
                }
                at = d;
            },
        }
    }
}

// ── Drift ───────────────────────────────────────────────────────────────────

/// How the watched folders of the database differ from what is watched.
#[derive(Debug)]
pub struct WatchDrift {
    /// What is watched but should not be.
    pub removed: Vec<String>,
    /// What should be watched but is not.
    pub added: Vec<String>,
}

/// Whether a path should be watched: it is that of a folder that is enabled and
/// exists.
pub open spec fn wanted(rows: Seq<db::FolderRow>, on_disk: Seq<DiskPath>, path: Seq<char>) -> bool {
    wanted_key(rows, on_disk, paths::path_key(path))
}

/// Whether a path that is told apart by `key` should be watched.
pub open spec fn wanted_key(
    rows: Seq<db::FolderRow>,
    on_disk: Seq<DiskPath>,
    key: Seq<Seq<char>>,
) -> bool {
    exists|i: int|
        0 <= i < rows.len() && selected(#[trigger] rows[i], on_disk[i]) && paths::path_key(
            key_of(rows[i], on_disk[i]),
        ) == key
}

/// The paths that should be watched, each once.
fn wanted_list(folders: &Vec<WatchedFolder>, on_disk: &Vec<DiskPath>) -> (r: Vec<String>)
    requires
        on_disk@.len() == folders@.len(),
    ensures
        paths::path_keys(text::texts(r@)).no_duplicates(),
        forall|k: Seq<Seq<char>>|
            paths::path_keys(text::texts(r@)).contains(k) == #[trigger] wanted_key(
                db::folder_rows(folders@),
                on_disk@,
                k,
            ),
        forall|j: int|
            0 <= j < r@.len() ==> is_folder(
                db::folder_rows(folders@),
                on_disk@,
                (#[trigger] r@[j])@,
            ),
{
    let ghost rows = db::folder_rows(folders@);
    let mut r: Vec<String> = Vec::new();
    let mut i: usize = 0;
    while i < folders.len()
        invariant
            i <= folders@.len(),
            on_disk@.len() == folders@.len(),
            rows == db::folder_rows(folders@),
            paths::path_keys(text::texts(r@)).no_duplicates(),
            forall|k: Seq<Seq<char>>|
                paths::path_keys(text::texts(r@)).contains(k) == #[trigger] wanted_key(
                    rows.take(i as int),
                    on_disk@,
                    k,
                ),
            forall|j: int| 0 <= j < r@.len() ==> is_folder(rows, on_disk@, (#[trigger] r@[j])@),
        decreases folders@.len() - i,
    {
        assert(rows[i as int] == folders@[i as int]@);
        let ghost before = paths::path_keys(text::texts(r@));
        let ghost found = r@;
        let ghost path = key_of(rows[i as int], on_disk@[i as int]);
        let ghost key = paths::path_key(path);
        proof {
            assert forall|k: Seq<Seq<char>>| #[trigger]
                wanted_key(rows.take(i + 1), on_disk@, k) == (wanted_key(
                    rows.take(i as int),
                    on_disk@,
                    k,
                ) || (selected(rows[i as int], on_disk@[i as int]) && key == k)) by {
                lemma_wanted_step(rows, on_disk@, i as int, k);
            }
        }
        if folders[i].enabled && on_disk[i].exists {
            let p: &String = match &on_disk[i].canonical {
                Some(c) => c,
                None => &folders[i].path,
            };
            assert(p@ == path);
            if position_of(&r, p).is_none() {
                r.push(p.clone());
                proof {
                    let after = paths::path_keys(text::texts(r@));
                    assert(after =~= before.push(key));
                    assert(after[before.len() as int] == key);
                    assert forall|k: Seq<Seq<char>>| after.contains(k) == (before.contains(k) || k
                        == key) by {
                        if before.contains(k) {
                            let j = choose|j: int| 0 <= j < before.len() && before[j] == k;
                            assert(after[j] == k);
                        }
                    }
                    assert(is_folder(rows, on_disk@, path));
                    assert forall|j: int| 0 <= j < r@.len() implies is_folder(
                        rows,
                        on_disk@,
                        (#[trigger] r@[j])@,
                    ) by {
                        if j < found.len() {
                            assert(r@[j] == found[j]);
                        }
                    }
                }
            }
        }
        i += 1;
    }
    assert(rows.take(rows.len() as int) =~= rows);
    r
}

/// Whether a text is the path under which a folder should be watched.
pub open spec fn is_folder(rows: Seq<db::FolderRow>, on_disk: Seq<DiskPath>, path: Seq<char>) -> bool {
    exists|i: int|
        0 <= i < rows.len() && selected(#[trigger] rows[i], on_disk[i]) && key_of(
            rows[i],
            on_disk[i],
        ) == path
}

proof fn lemma_wanted_step(
    rows: Seq<db::FolderRow>,
    on_disk: Seq<DiskPath>,
    i: int,
    k: Seq<Seq<char>>,
)
    requires
        0 <= i < rows.len(),
    ensures
        wanted_key(rows.take(i + 1), on_disk, k) == (wanted_key(rows.take(i), on_disk, k) || (
        selected(rows[i], on_disk[i]) && paths::path_key(key_of(rows[i], on_disk[i])) == k)),
{
    let a = rows.take(i + 1);
    let b = rows.take(i);
    if wanted_key(b, on_disk, k) {
        let j = choose|j: int|
            0 <= j < b.len() && selected(#[trigger] b[j], on_disk[j]) && paths::path_key(
                key_of(b[j], on_disk[j]),
            ) == k;
        assert(a[j] == b[j]);
    }
    if selected(rows[i], on_disk[i]) && paths::path_key(key_of(rows[i], on_disk[i])) == k {
        assert(a[i] == rows[i]);
    }
    if wanted_key(a, on_disk, k) {
        let j = choose|j: int|
            0 <= j < a.len() && selected(#[trigger] a[j], on_disk[j]) && paths::path_key(
                key_of(a[j], on_disk[j]),
            ) == k;
        if j < i {
            assert(b[j] == a[j]);
        }
    }
}

/// The paths of `a` that are not in `b`, each once, in order.
fn difference(a: &Vec<String>, b: &Vec<String>) -> (r: Vec<String>)
    ensures
        paths::path_keys(text::texts(r@)).no_duplicates(),
        forall|k: Seq<Seq<char>>| #[trigger]
            paths::path_keys(text::texts(r@)).contains(k) == (paths::path_keys(
                text::texts(a@),
            ).contains(k) && !paths::path_keys(text::texts(b@)).contains(k)),
        forall|j: int| 0 <= j < r@.len() ==> text::texts(a@).contains((#[trigger] r@[j])@),
{
    let ghost xs = paths::path_keys(text::texts(a@));
    let ghost ys = paths::path_keys(text::texts(b@));
    let mut r: Vec<String> = Vec::new();
    let mut i: usize = 0;
    while i < a.len()
        invariant
            i <= a@.len(),
            xs == paths::path_keys(text::texts(a@)),
            ys == paths::path_keys(text::texts(b@)),
            paths::path_keys(text::texts(r@)).no_duplicates(),
            forall|k: Seq<Seq<char>>| #[trigger]
                paths::path_keys(text::texts(r@)).contains(k) == (xs.take(i as int).contains(k)
                    && !ys.contains(k)),
            forall|j: int| 0 <= j < r@.len() ==> text::texts(a@).contains((#[trigger] r@[j])@),
        decreases a@.len() - i,
    {
        let ghost before = paths::path_keys(text::texts(r@));
        let ghost found = r@;
        let ghost x = xs[i as int];
        assert(x == paths::path_key(a@[i as int]@));
        proof {
            assert forall|k: Seq<Seq<char>>| #[trigger] xs.take(i + 1).contains(k) == (xs.take(
                i as int,
            ).contains(k) || k == x) by {
                let u = xs.take(i + 1);
                let v = xs.take(i as int);
                if v.contains(k) {
                    let j = choose|j: int| 0 <= j < v.len() && v[j] == k;
                    assert(u[j] == k);
                }
                if k == x {
                    assert(u[i as int] == k);
                }
                if u.contains(k) {
                    let j = choose|j: int| 0 <= j < u.len() && u[j] == k;
                    if j < i {
                        assert(v[j] == k);
                    }
                }
            }
        }
        if position_of(b, &a[i]).is_none() && position_of(&r, &a[i]).is_none() {
            r.push(a[i].clone());
            proof {
                let after = paths::path_keys(text::texts(r@));
                assert(after =~= before.push(x));
                assert(after[before.len() as int] == x);
                assert forall|k: Seq<Seq<char>>| #[trigger] after.contains(k) == (before.contains(k)
                    || k == x) by {
                    if before.contains(k) {
                        let j = choose|j: int| 0 <= j < before.len() && before[j] == k;
                        assert(after[j] == k);
                    }
                }
                assert(text::texts(a@)[i as int] == a@[i as int]@);
                assert forall|j: int| 0 <= j < r@.len() implies text::texts(a@).contains(
                    (#[trigger] r@[j])@,
                ) by {
                    if j < found.len() {
                        assert(r@[j] == found[j]);
                    }
                }
            }
        }
        i += 1;
    }
    assert(xs.take(xs.len() as int) =~= xs);
    r
}

/// How the watched folders of the database differ from what is watched, where
/// they do. A folder that is enabled but missing is no difference: starting the
/// watchers anew would leave it out again.
pub fn compute_watch_drift(
    folders: &Vec<WatchedFolder>,
    on_disk: &Vec<DiskPath>,
    engine_paths: &Vec<String>,
) -> (r: Option<WatchDrift>)
    requires
        on_disk@.len() == folders@.len(),
    ensures
        ({
            let rows = db::folder_rows(folders@);
            let have = paths::path_keys(text::texts(engine_paths@));
            &&& r is None == forall|k: Seq<Seq<char>>| #[trigger]
                wanted_key(rows, on_disk@, k) == have.contains(k)
            &&& r matches Some(d) ==> {
                let removed = paths::path_keys(text::texts(d.removed@));
                let added = paths::path_keys(text::texts(d.added@));
                &&& removed.no_duplicates()
                &&& forall|k: Seq<Seq<char>>| #[trigger]
                    removed.contains(k) == (have.contains(k) && !wanted_key(rows, on_disk@, k))
                &&& forall|j: int|
                    0 <= j < d.removed@.len() ==> text::texts(engine_paths@).contains(
                        (#[trigger] d.removed@[j])@,
                    )
                &&& added.no_duplicates()
                &&& forall|k: Seq<Seq<char>>| #[trigger]
                    added.contains(k) == (wanted_key(rows, on_disk@, k) && !have.contains(k))
                &&& forall|j: int|
                    0 <= j < d.added@.len() ==> is_folder(rows, on_disk@, (#[trigger] d.added@[j])@)
            }
        }),
{
    let list: Vec<String> = wanted_list(folders, on_disk);
    let removed: Vec<String> = difference(engine_paths, &list);
    let added: Vec<String> = difference(&list, engine_paths);
    let ghost rows = db::folder_rows(folders@);
    let ghost have = paths::path_keys(text::texts(engine_paths@));
    let ghost gone = paths::path_keys(text::texts(removed@));
    let ghost new = paths::path_keys(text::texts(added@));
    proof {
        assert forall|k: Seq<Seq<char>>| #[trigger]
            gone.contains(k) == (have.contains(k) && !wanted_key(rows, on_disk@, k)) by {}
        assert forall|k: Seq<Seq<char>>| #[trigger]
            new.contains(k) == (wanted_key(rows, on_disk@, k) && !have.contains(k)) by {}
        assert forall|j: int| 0 <= j < added@.len() implies is_folder(
            rows,
            on_disk@,
            (#[trigger] added@[j])@,
        ) by {
            let t = text::texts(list@);
            assert(t.contains(added@[j]@));
            let m = choose|m: int| 0 <= m < t.len() && t[m] == added@[j]@;
            assert(list@[m]@ == added@[j]@);
        }
    }
    if removed.len() == 0 && added.len() == 0 {
        proof {
            assert forall|k: Seq<Seq<char>>| #[trigger] wanted_key(rows, on_disk@, k)
                == have.contains(k) by {
                assert(!gone.contains(k));
                assert(!new.contains(k));
            }
        }
        return None;
    }
    proof {
        if removed@.len() > 0 {
            let k = gone[0];
            assert(gone.contains(k));
            assert(have.contains(k) != wanted_key(rows, on_disk@, k));
        } else {
            let k = new[0];
            assert(new.contains(k));
            assert(have.contains(k) != wanted_key(rows, on_disk@, k));
        }
    }
    Some(WatchDrift { removed, added })
}

// ── Laws ────────────────────────────────────────────────────────────────────

/// The register after the watchers of the first `n` folders were started, when
/// none fails to start.
pub open spec fn restarted(
    rows: Seq<db::FolderRow>,
    on_disk: Seq<DiskPath>,
    n: int,
) -> EngineModel
    decreases n,
{
    if n <= 0 {
        EngineModel { watchers: Seq::empty(), receiver_taken: true }
    } else {
        let before = restarted(rows, on_disk, n - 1);
        let key = key_of(rows[n - 1], on_disk[n - 1]);
        if selected(rows[n - 1], on_disk[n - 1]) && !before.watches(key) {
            engine::after_add(before, key, target_of(rows[n - 1]).is_network)
        } else {
            before
        }
    }
}

proof fn lemma_restarted_watches(
    rows: Seq<db::FolderRow>,
    on_disk: Seq<DiskPath>,
    n: int,
    path: Seq<char>,
)
    requires
        0 <= n <= rows.len(),
    ensures
        restarted(rows, on_disk, n).watches(path) == wanted(rows.take(n), on_disk, path),
    decreases n,
{
    if n > 0 {
        lemma_restarted_watches(rows, on_disk, n - 1, path);
        lemma_wanted_step(rows, on_disk, n - 1, paths::path_key(path));
        let before = restarted(rows, on_disk, n - 1);
        let after = restarted(rows, on_disk, n);
        let key = key_of(rows[n - 1], on_disk[n - 1]);
        if selected(rows[n - 1], on_disk[n - 1]) && !before.watches(key) {
            let k = before.watchers.len() as int;
            assert(after.watchers[k].path == key);
            if before.watches(path) {
                let i = choose|i: int|
                    0 <= i < before.watchers.len() && (#[trigger] before.watchers[i]).key()
                        == paths::path_key(path);
                assert(after.watchers[i] == before.watchers[i]);
            }
            if after.watches(path) && !paths::same_components(path, key) {
                let i = choose|i: int|
                    0 <= i < after.watchers.len() && (#[trigger] after.watchers[i]).key()
                        == paths::path_key(path);
                assert(before.watchers[i] == after.watchers[i]);
            }
        }
    }
}

/// Starting the watchers anew ends the drift: where every watcher starts, just
/// the paths that should be watched are watched, missing and disabled folders
/// left out.
pub proof fn law_restart_ends_the_drift(
    rows: Seq<db::FolderRow>,
    on_disk: Seq<DiskPath>,
    path: Seq<char>,
)
    ensures
        restarted(rows, on_disk, rows.len() as int).watches(path) == wanted(rows, on_disk, path),
{
    lemma_restarted_watches(rows, on_disk, rows.len() as int, path);
    assert(rows.take(rows.len() as int) =~= rows);
}

/// A disabled or missing folder is never wanted on its own account: leaving it
/// out of the database changes nothing.
pub proof fn law_disabled_and_missing_folders_do_not_count(
    rows: Seq<db::FolderRow>,
    on_disk: Seq<DiskPath>,
    path: Seq<char>,
)
    requires
        rows.len() > 0,
        !selected(rows.last(), on_disk[rows.len() - 1]),
    ensures
        wanted(rows, on_disk, path) == wanted(rows.drop_last(), on_disk, path),
{
    let n = rows.len() - 1;
    lemma_wanted_step(rows, on_disk, n, paths::path_key(path));
    assert(rows.take(n + 1) =~= rows);
    assert(rows.take(n) =~= rows.drop_last());
}

/// A file directly in a watched folder belongs to that folder, whatever other
/// folders above it are watched.
pub proof fn law_file_belongs_to_its_folder(
    entries: Seq<EntryRow>,
    path: Seq<char>,
    dir: Seq<char>,
)
    requires
        paths::path_parent(path) == Some(dir),
        dir.len() < path.len(),
        id_at(entries, dir) is Some,
    ensures
        nearest_folder(entries, path) == id_at(entries, dir),
{
}

/// The directory that `n` steps from a path to its parent lead to, while each
/// step leads to a shorter path, as those of the filesystem do.
pub open spec fn above(path: Seq<char>, n: nat) -> Option<Seq<char>>
    decreases n,
{
    if n == 0 {
        Some(path)
    } else {
        match paths::path_parent(path) {
            Some(d) => if d.len() < path.len() {
                above(d, (n - 1) as nat)
            } else {
                None
            },
            None => None,
        }
    }
}

/// A file at any depth below a watched directory belongs to a watched folder: to
/// the first watched directory on the way up.
pub proof fn law_file_belongs_to_the_nearest_folder(
    entries: Seq<EntryRow>,
    path: Seq<char>,
    n: nat,
)
    requires
        n >= 1,
        above(path, n) is Some,
        id_at(entries, above(path, n)->0) is Some,
        forall|m: nat| 1 <= m < n ==> id_at(entries, (#[trigger] above(path, m))->0) is None,
    ensures
        nearest_folder(entries, path) == id_at(entries, above(path, n)->0),
    decreases n,
{
    let d = paths::path_parent(path)->0;
    assert(above(path, 1) == above(d, 0));
    if n > 1 {
        assert forall|m: nat| 1 <= m < n - 1 implies id_at(
            entries,
            (#[trigger] above(d, m))->0,
        ) is None by {
            assert(above(path, m + 1) == above(d, m));
        }
        assert(id_at(entries, above(path, 1)->0) is None);
        law_file_belongs_to_the_nearest_folder(entries, d, (n - 1) as nat);
    }
}

/// A file belongs to no folder only where no directory above it is watched, at
/// whatever distance.
pub proof fn law_file_without_folder_has_none_above(
    entries: Seq<EntryRow>,
    path: Seq<char>,
    n: nat,
)
    requires
        nearest_folder(entries, path) is None,
        n >= 1,
        above(path, n) is Some,
    ensures
        id_at(entries, above(path, n)->0) is None,
    decreases n,
{
    let d = paths::path_parent(path)->0;
    assert(above(path, 1) == above(d, 0));
    if n > 1 {
        law_file_without_folder_has_none_above(entries, d, (n - 1) as nat);
    }
}

/// The folder that a file belongs to is one of those above it.
pub proof fn law_folder_of_a_file_is_above_it(entries: Seq<EntryRow>, path: Seq<char>) -> (n: nat)
    requires
        nearest_folder(entries, path) is Some,
    ensures
        n >= 1,
        above(path, n) is Some,
        nearest_folder(entries, path) == id_at(entries, above(path, n)->0),
    decreases path.len(),
{
    let d = paths::path_parent(path)->0;
    assert(above(path, 1) == above(d, 0));
    if id_at(entries, d) is Some {
        1
    } else {
        let m = law_folder_of_a_file_is_above_it(entries, d);
        assert(above(path, m + 1) == above(d, m));
        m + 1
    }
}

/// A path has the id of the last entry for it, and none only where there is no
/// entry for it.
pub proof fn law_last_entry_counts(entries: Seq<EntryRow>, path: Seq<char>, k: int)
    requires
        0 <= k < entries.len(),
        paths::same_components(entries[k].path, path),
        forall|i: int|
            k < i < entries.len() ==> !paths::same_components((#[trigger] entries[i]).path, path),
    ensures
        id_at(entries, path) == Some(entries[k].id),
    decreases entries.len(),
{
    if k < entries.len() - 1 {
        let last = entries.len() - 1;
        assert(!paths::same_components(entries[last].path, path));
        let e = entries.drop_last();
        assert forall|i: int| k < i < e.len() implies !paths::same_components(
            (#[trigger] e[i]).path,
            path,
        ) by {
            assert(e[i] == entries[i]);
        }
        law_last_entry_counts(e, path, k);
    }
}

/// A path that no entry is for has no id.
pub proof fn law_path_without_entry_has_no_id(entries: Seq<EntryRow>, path: Seq<char>)
    requires
        forall|i: int|
            0 <= i < entries.len() ==> !paths::same_components((#[trigger] entries[i]).path, path),
    ensures
        id_at(entries, path) is None,
    decreases entries.len(),
{
    if entries.len() > 0 {
        let last = entries.len() - 1;
        assert(!paths::same_components(entries[last].path, path));
        let e = entries.drop_last();
        assert forall|i: int| 0 <= i < e.len() implies !paths::same_components(
            (#[trigger] e[i]).path,
            path,
        ) by {
            assert(e[i] == entries[i]);
        }
        law_path_without_entry_has_no_id(e, path);
    }
}

/// Every folder that is enabled and exists is watched, under its path and id,
/// with the filter that its settings give; in the mode `Poll` as a network
/// folder.
pub proof fn law_enabled_folder_is_watched(
    rows: Seq<db::FolderRow>,
    on_disk: Seq<DiskPath>,
    i: int,
)
    requires
        0 <= i < rows.len(),
        rows[i].enabled,
        on_disk[i].exists,
    ensures
        exists|j: int|
            {
                &&& 0 <= j < targets_of(rows, on_disk).len()
                &&& (#[trigger] targets_of(rows, on_disk)[j]).folder_id == rows[i].id
                &&& targets_of(rows, on_disk)[j].path == rows[i].path
                &&& targets_of(rows, on_disk)[j].is_network == (rows[i].watch_mode is Poll)
                &&& targets_of(rows, on_disk)[j].rules == folder_rules(rows[i])
            },
    decreases rows.len(),
{
    let all = targets_of(rows, on_disk);
    let before = targets_of(rows.drop_last(), on_disk);
    if i == rows.len() - 1 {
        assert(all[before.len() as int] == target_of(rows[i]));
    } else {
        law_enabled_folder_is_watched(rows.drop_last(), on_disk, i);
        let j = choose|j: int|
            {
                &&& 0 <= j < before.len()
                &&& (#[trigger] before[j]).folder_id == rows[i].id
                &&& before[j].path == rows[i].path
                &&& before[j].is_network == (rows[i].watch_mode is Poll)
                &&& before[j].rules == folder_rules(rows[i])
            };
        assert(all[j] == before[j]);
    }
}

/// Whatever is watched is a folder that is enabled and exists, and folders are
/// watched in their order, none twice.
pub proof fn law_watched_folders_are_enabled(
    rows: Seq<db::FolderRow>,
    on_disk: Seq<DiskPath>,
) -> (from: Seq<int>)
    ensures
        from.len() == targets_of(rows, on_disk).len(),
        forall|j: int|
            0 <= j < from.len() ==> 0 <= #[trigger] from[j] < rows.len() && rows[from[j]].enabled
                && on_disk[from[j]].exists && targets_of(rows, on_disk)[j].folder_id
                == rows[from[j]].id && targets_of(rows, on_disk)[j].path == rows[from[j]].path,
        forall|j: int, k: int|
            0 <= j < k < from.len() ==> #[trigger] from[j] < #[trigger] from[k],
    decreases rows.len(),
{
    if rows.len() == 0 {
        Seq::empty()
    } else {
        let d = rows.drop_last();
        let prev = law_watched_folders_are_enabled(d, on_disk);
        assert forall|j: int| 0 <= j < prev.len() implies rows[#[trigger] prev[j]] == d[prev[j]] by {}
        if selected(rows.last(), on_disk[rows.len() - 1]) {
            prev.push(rows.len() - 1)
        } else {
            prev
        }
    }
}

/// The user is warned of just the folders that are enabled and do not exist.
pub proof fn law_missing_folders_are_reported(
    rows: Seq<db::FolderRow>,
    on_disk: Seq<DiskPath>,
    path: Seq<char>,
)
    ensures
        missing_of(rows, on_disk).contains(path) <==> exists|i: int|
            0 <= i < rows.len() && (#[trigger] rows[i]).enabled && !on_disk[i].exists
                && rows[i].path == path,
    decreases rows.len(),
{
    if rows.len() > 0 {
        let d = rows.drop_last();
        let last = rows.len() - 1;
        law_missing_folders_are_reported(d, on_disk, path);
        let all = missing_of(rows, on_disk);
        let before = missing_of(d, on_disk);
        if before.contains(path) {
            let j = choose|j: int| 0 <= j < before.len() && before[j] == path;
            assert(all[j] == path);
            let i = choose|i: int|
                0 <= i < d.len() && (#[trigger] d[i]).enabled && !on_disk[i].exists && d[i].path
                    == path;
            assert(rows[i] == d[i]);
        }
        if rows[last].enabled && !on_disk[last].exists {
            assert(all[before.len() as int] == rows[last].path);
        }
        if exists|i: int|
            0 <= i < rows.len() && (#[trigger] rows[i]).enabled && !on_disk[i].exists
                && rows[i].path == path {
            let i = choose|i: int|
                0 <= i < rows.len() && (#[trigger] rows[i]).enabled && !on_disk[i].exists
                    && rows[i].path == path;
            if i < last {
                assert(d[i] == rows[i]);
            }
        }
        if all.contains(path) && !before.contains(path) {
            let j = choose|j: int| 0 <= j < all.len() && all[j] == path;
            if j < before.len() {
                assert(before[j] == path);
            }
            assert(rows[last].path == path);
        }
    }
}

/// The path of an enabled folder that exists should be watched: the canonical
/// one, where the filesystem gives it, else the one that is stored. No other path
/// should be.
pub proof fn law_existing_folder_is_wanted(
    rows: Seq<db::FolderRow>,
    on_disk: Seq<DiskPath>,
    i: int,
    path: Seq<char>,
)
    requires
        0 <= i < rows.len(),
    ensures
        rows[i].enabled && on_disk[i].exists && on_disk[i].canonical is Some ==> wanted(
            rows,
            on_disk,
            on_disk[i].canonical->0@,
        ),
        rows[i].enabled && on_disk[i].exists && on_disk[i].canonical is None ==> wanted(
            rows,
            on_disk,
            rows[i].path,
        ),
        wanted(rows, on_disk, path) ==> exists|k: int|
            {
                &&& 0 <= k < rows.len()
                &&& (#[trigger] rows[k]).enabled
                &&& on_disk[k].exists
                &&& match on_disk[k].canonical {
                    Some(c) => paths::same_components(c@, path),
                    None => paths::same_components(rows[k].path, path),
                }
            },
{
    assert(selected(rows[i], on_disk[i]) == (rows[i].enabled && on_disk[i].exists));
    if wanted(rows, on_disk, path) {
        let k = choose|k: int|
            0 <= k < rows.len() && selected(#[trigger] rows[k], on_disk[k]) && paths::path_key(
                key_of(rows[k], on_disk[k]),
            ) == paths::path_key(path);
        assert(rows[k].enabled);
    }
}

/// A folder's filter takes files of one kilobyte and more, leaves placeholders
/// out where the folder does, and goes by the stored patterns that are valid.
pub proof fn law_folder_filter_follows_its_settings(row: db::FolderRow, p: Seq<char>)
    ensures
        folder_rules(row).min_size == 1024,
        folder_rules(row).ignore_online == row.ignore_online_files,
        folder_rules(row).include_globs.contains(p) <==> filter::stored_patterns(
            row.include_patterns,
        ).contains(p) && filter::glob_compiles(p),
        folder_rules(row).exclude_globs.contains(p) <==> filter::stored_patterns(
            row.exclude_patterns,
        ).contains(p) && filter::glob_compiles(p),
{
    let keep = |p: Seq<char>| filter::glob_compiles(p);
    text::lemma_filter_keeps(filter::stored_patterns(row.include_patterns), keep, p);
    text::lemma_filter_keeps(filter::stored_patterns(row.exclude_patterns), keep, p);
}

/// What is told as missing from the watched paths is spelt as the folder is: in its
/// canonical form, where there is one.
pub proof fn law_folders_are_told_by_their_paths(
    rows: Seq<db::FolderRow>,
    on_disk: Seq<DiskPath>,
    path: Seq<char>,
)
    ensures
        is_folder(rows, on_disk, path) <==> exists|k: int|
            {
                &&& 0 <= k < rows.len()
                &&& (#[trigger] rows[k]).enabled
                &&& on_disk[k].exists
                &&& path == match on_disk[k].canonical {
                    Some(c) => c@,
                    None => rows[k].path,
                }
            },
{
    if is_folder(rows, on_disk, path) {
        let k = choose|k: int|
            0 <= k < rows.len() && selected(#[trigger] rows[k], on_disk[k]) && key_of(
                rows[k],
                on_disk[k],
            ) == path;
        assert(rows[k].enabled);
    }
    if exists|k: int|
        {
            &&& 0 <= k < rows.len()
            &&& (#[trigger] rows[k]).enabled
            &&& on_disk[k].exists
            &&& path == match on_disk[k].canonical {
                Some(c) => c@,
                None => rows[k].path,
            }
        } {
        let k = choose|k: int|
            {
                &&& 0 <= k < rows.len()
                &&& (#[trigger] rows[k]).enabled
                &&& on_disk[k].exists
                &&& path == match on_disk[k].canonical {
                    Some(c) => c@,
                    None => rows[k].path,
                }
            };
        assert(selected(rows[k], on_disk[k]));
    }
}

/// The contents of a folder to watch, and of an entry of the map, are those of
/// their fields, each as it is.
pub proof fn law_targets_hold_their_fields(t: WatchTarget, v: Seq<FolderEntry>, i: int)
    ensures
        target_row(t).folder_id == t.folder_id,
        target_row(t).path == t.path@,
        target_row(t).is_network == t.is_network,
        target_row(t).rules == t.filter@,
        entry_rows(v).len() == v.len(),
        0 <= i < v.len() ==> entry_rows(v)[i].path == v[i].path@ && entry_rows(v)[i].id == v[i].id,
{
}

} // verus!
