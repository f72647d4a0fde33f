//! The trash of a watched folder: where uploaded files are moved to, and when
//! they are deleted.

use vstd::prelude::*;

use crate::db;
use crate::db::{PostUpload, WatchedFolder};
use crate::paths;
use crate::text;

verus! {

broadcast use vstd::seq::group_seq_axioms;

/// The hidden directory that trashed files are moved to.
pub const TRASH_DIR_NAME: &'static str = ".immichsync-trash";

/// Seconds of a day.
pub const DAY_SECS: u64 = 86400;

/// What is moved to the trash directory keeps this path below it: the path of
/// the file below the folder; its name where it is not in the folder; the whole
/// path where it has no name.
pub open spec fn kept_below_trash(path: Seq<char>, root: Seq<char>) -> Seq<char> {
    match paths::path_below(path, root) {
        Some(rel) => rel,
        None => match paths::path_file_name(path) {
            Some(name) => name,
            None => path,
        },
    }
}

/// The trash directory of a folder.
pub open spec fn trash_root_of(root: Seq<char>) -> Seq<char> {
    paths::path_joined(root, TRASH_DIR_NAME@)
}

/// Where a trashed file goes.
pub open spec fn trash_path_of(path: Seq<char>, root: Seq<char>) -> Seq<char> {
    paths::path_joined(trash_root_of(root), kept_below_trash(path, root))
}

/// How to move a file to the trash.
#[derive(Debug)]
pub struct TrashPlan {
    /// The trash directory; it is made hidden.
    pub trash_root: String,
    /// The directory to create first, if any.
    pub create_dir: Option<String>,
    /// Where the file goes.
    pub destination: String,
}

/// How to move a file to the trash of its folder, with the path that it has
/// below the folder.
pub fn trash_file(file_path: &str, folder_root: &str) -> (r: TrashPlan)
    ensures
        r.trash_root@ == trash_root_of(folder_root@),
        r.destination@ == trash_path_of(file_path@, folder_root@),
        text::opt_text(r.create_dir) == paths::path_parent(r.destination@),
{
    let trash_root: String = paths::join(folder_root, TRASH_DIR_NAME);
    let relative: String = match paths::strip_base(file_path, folder_root) {
        Some(rel) => rel,
        None => match paths::file_name(file_path) {
            Some(name) => name,
            None => file_path.to_owned(),
        },
    };
    let destination: String = paths::join(&trash_root, &relative);
    let create_dir: Option<String> = paths::parent(&destination);
    TrashPlan { trash_root, create_dir, destination }
}

/// The trash directories that are cleaned: those of the folders whose files are
/// trashed, in order.
pub open spec fn trash_dirs(folders: Seq<db::FolderRow>) -> Seq<Seq<char>> {
    folders.filter(|f: db::FolderRow| f.post_upload is Trash).map_values(
        |f: db::FolderRow| trash_root_of(f.path),
    )
}

/// The trash directories to clean.
pub fn trash_roots(folders: &Vec<WatchedFolder>) -> (r: Vec<String>)
    ensures
        text::texts(r@) == trash_dirs(db::folder_rows(folders@)),
{
    let ghost rows = db::folder_rows(folders@);
    let ghost p = |f: db::FolderRow| f.post_upload is Trash;
    let ghost g = |f: db::FolderRow| trash_root_of(f.path);
    let mut r: Vec<String> = Vec::new();
    let mut i: usize = 0;
    proof {
        reveal(Seq::filter);
        assert(rows.take(0) =~= Seq::<db::FolderRow>::empty());
        assert(text::texts(r@) =~= rows.take(0).filter(p).map_values(g));
    }
    while i < folders.len()
        invariant
            i <= folders@.len(),
            rows == db::folder_rows(folders@),
            p == (|f: db::FolderRow| f.post_upload is Trash),
            g == (|f: db::FolderRow| trash_root_of(f.path)),
            text::texts(r@) =~= rows.take(i as int).filter(p).map_values(g),
        decreases folders@.len() - i,
    {
        proof {
            assert(rows[i as int] == folders@[i as int]@);
            assert(rows.take(i + 1) =~= rows.take(i as int).push(rows[i as int]));
            rows.take(i as int).lemma_filter_push(rows[i as int], p);
        }
        if folders[i].post_upload == PostUpload::Trash {
            let ghost before = text::texts(r@);
            r.push(paths::join(&folders[i].path, TRASH_DIR_NAME));
            proof {
                assert(text::texts(r@) =~= before.push(trash_root_of(rows[i as int].path)));
                rows.take(i as int).filter(p).lemma_push_map_commute(g, rows[i as int]);
            }
        }
        i += 1;
    }
    assert(rows.take(rows.len() as int) =~= rows);
    r
}

/// Whether a file of this age has been in the trash for longer than
/// `retention_days`.
pub open spec fn expired(age_secs: u64, age_nanos: u32, retention_days: u32) -> bool {
    let limit = retention_days as int * DAY_SECS as int;
    age_secs > limit || (age_secs == limit && age_nanos > 0)
}

/// Whether a trashed file is to be deleted. `age` is the time since it was
/// modified, in seconds and nanoseconds; a file whose age is unknown stays, and
/// one from the future has no age.
pub fn should_delete(age: Option<(u64, u32)>, retention_days: u32) -> (r: bool)
    ensures
        r == (age matches Some(a) && expired(a.0, a.1, retention_days)),
{
    match age {
        None => false,
        Some((secs, nanos)) => {
            let limit: u64 = retention_days as u64 * DAY_SECS;
            secs > limit || (secs == limit && nanos > 0)
        },
    }
}

/// The number of components of a path.
pub open spec fn depth_of(path: Seq<char>) -> nat {
    paths::path_components(path).len()
}

/// Whether each path is at least as deep as the next.
pub open spec fn deepest_first(dirs: Seq<Seq<char>>) -> bool {
    forall|i: int, j: int|
        0 <= i < j < dirs.len() ==> depth_of(#[trigger] dirs[i]) >= depth_of(#[trigger] dirs[j])
}

/// The paths of one depth, in order.
pub open spec fn of_depth(dirs: Seq<String>, n: nat) -> Seq<String> {
    dirs.filter(|s: String| depth_of(s@) == n)
}

proof fn lemma_insert_keeps_order(v: Seq<String>, k: int, d: String, n: nat)
    requires
        0 <= k <= v.len(),
        forall|j: int| k <= j < v.len() ==> depth_of(#[trigger] v[j]@) < depth_of(d@),
    ensures
        of_depth(v.insert(k, d), n) == of_depth(v.push(d), n),
{
    let p = |s: String| depth_of(s@) == n;
    let a = v.take(k);
    let b = v.skip(k);
    let one = seq![d];
    assert(v =~= a + b);
    assert(v.insert(k, d) =~= (a + one) + b);
    assert(v.push(d) =~= (a + b) + one);
    Seq::filter_distributes_over_add(a + one, b, p);
    Seq::filter_distributes_over_add(a, one, p);
    Seq::filter_distributes_over_add(a + b, one, p);
    Seq::filter_distributes_over_add(a, b, p);
    if n == depth_of(d@) {
        assert forall|j: int| 0 <= j < b.len() implies !p(#[trigger] b[j]) by {
            assert(b[j] == v[k + j]);
        }
        lemma_filter_none(b, p);
        assert(a.filter(p) + one.filter(p) + b.filter(p) =~= a.filter(p) + b.filter(p)
            + one.filter(p));
    } else {
        assert(!p(d));
        lemma_filter_none(one, p);
        assert(a.filter(p) + one.filter(p) + b.filter(p) =~= a.filter(p) + b.filter(p)
            + one.filter(p));
    }
}

proof fn lemma_filter_none(s: Seq<String>, p: spec_fn(String) -> bool)
    requires
        forall|i: int| 0 <= i < s.len() ==> !p(#[trigger] s[i]),
    ensures
        s.filter(p) == Seq::<String>::empty(),
    decreases s.len(),
{
    reveal(Seq::filter);
    if s.len() > 0 {
        assert forall|i: int| 0 <= i < s.drop_last().len() implies !p(#[trigger] s.drop_last()[i]) by {
            assert(s.drop_last()[i] == s[i]);
        }
        lemma_filter_none(s.drop_last(), p);
        assert(!p(s[s.len() - 1]));
    }
}

/// The directories in the order in which empty ones can be removed: a directory
/// comes before the ones above it. Directories of the same depth keep their
/// order.
pub fn removal_order(dirs: Vec<String>) -> (r: Vec<String>)
    ensures
        deepest_first(text::texts(r@)),
        r@.to_multiset() == dirs@.to_multiset(),
        forall|n: nat| of_depth(r@, n) == #[trigger] of_depth(dirs@, n),
{
    let mut v: Vec<String> = Vec::new();
    let mut i: usize = 0;
    proof {
        broadcast use vstd::seq_lib::group_to_multiset_ensures;

        assert(dirs@.take(0) =~= v@);
    }
    while i < dirs.len()
        invariant
            i <= dirs@.len(),
            v@.len() == i,
            deepest_first(text::texts(v@)),
            v@.to_multiset() == dirs@.take(i as int).to_multiset(),
            forall|n: nat| of_depth(v@, n) == #[trigger] of_depth(dirs@.take(i as int), n),
        decreases dirs@.len() - i,
    {
        let d: String = dirs[i].clone();
        let n: usize = paths::components(&d).len();
        assert(n == depth_of(d@));
        // The first position whose path is less deep.
        let mut k: usize = 0;
        while k < v.len() && paths::components(&v[k]).len() >= n
            invariant
                k <= v@.len(),
                n == depth_of(d@),
                forall|j: int| 0 <= j < k ==> depth_of(#[trigger] v@[j]@) >= n,
            decreases v@.len() - k,
        {
            k += 1;
        }
        let ghost v0 = v@;
        v.insert(k, d);
        proof {
            broadcast use vstd::seq_lib::group_to_multiset_ensures;

            assert(v@ == v0.insert(k as int, d));
            v0.insert_ensures(k as int, d);
            assert(dirs@.take(i + 1) =~= dirs@.take(i as int).push(d));
            assert forall|j: int| k <= j < v0.len() implies depth_of(#[trigger] v0[j]@) < depth_of(
                d@,
            ) by {
                let t0 = text::texts(v0);
                assert(t0[k as int] == v0[k as int]@);
                assert(t0[j] == v0[j]@);
                if j > k {
                    assert(depth_of(t0[k as int]) >= depth_of(t0[j]));
                }
            }
            assert forall|m: nat| of_depth(v@, m) == #[trigger] of_depth(dirs@.take(i + 1), m) by {
                let p = |s: String| depth_of(s@) == m;
                lemma_insert_keeps_order(v0, k as int, d, m);
                v0.lemma_filter_push(d, p);
                dirs@.take(i as int).lemma_filter_push(d, p);
                assert(of_depth(v0, m) == of_depth(dirs@.take(i as int), m));
            }
            let t = text::texts(v@);
            assert forall|a: int, b: int| 0 <= a < b < t.len() implies depth_of(#[trigger] t[a])
                >= depth_of(#[trigger] t[b]) by {
                let t0 = text::texts(v0);
                let a0 = if a < k { a } else { a - 1 };
                let b0 = if b < k { b } else { b - 1 };
                if a == k {
                    assert(t[a] == d@);
                    assert(t[b] == t0[b0]);
                    if k < v0.len() {
                        assert(t0[k as int] == v0[k as int]@);
                        if b0 > k {
                            assert(depth_of(t0[k as int]) >= depth_of(t0[b0]));
                        }
                    }
                } else if b == k {
                    assert(t[b] == d@);
                    assert(t[a] == v0[a]@);
                } else {
                    assert(t[a] == t0[a0]);
                    assert(t[b] == t0[b0]);
                    assert(depth_of(t0[a0]) >= depth_of(t0[b0]));
                }
            }
        }
        i += 1;
    }
    assert(dirs@.take(dirs@.len() as int) =~= dirs@);
    v
}

// ── Cleaning ────────────────────────────────────────────────────────────────

/// An entry of a directory of the trash.
#[derive(Debug)]
pub struct FoundEntry {
    pub path: String,
    pub is_dir: bool,
    pub is_file: bool,
    /// The time since it was modified, where it is known.
    pub age: Option<(u64, u32)>,
}

/// What the cleaning of a trash directory asks for.
#[derive(Debug)]
pub enum CleanupStep {
    /// Read this directory.
    ReadDir { path: String },
    /// Delete this file.
    DeleteFile { path: String },
}

/// The cleaning of a trash directory: its directories are read from the top,
/// each as soon as it is come across, and files that have been there for too
/// long are deleted.
pub struct CleanupRun {
    retention_days: u32,
    /// What was found and not yet seen to, the next one last.
    pending: Vec<FoundEntry>,
    /// The directories that were come across.
    dirs: Vec<String>,
}

/// The state of a [`CleanupRun`].
#[verifier::ext_equal]
pub struct CleanupState {
    pub retention_days: u32,
    /// What was found and not yet seen to, the next one last.
    pub pending: Seq<FoundEntry>,
    /// The directories that were come across, in order.
    pub dirs: Seq<String>,
}

impl View for CleanupRun {
    type V = CleanupState;

    closed spec fn view(&self) -> CleanupState {
        CleanupState {
            retention_days: self.retention_days,
            pending: self.pending@,
            dirs: self.dirs@,
        }
    }
}

/// Whether an entry is a file that has been in the trash for too long.
pub open spec fn goes(e: FoundEntry, retention_days: u32) -> bool {
    !e.is_dir && e.is_file && (e.age matches Some(a) && expired(a.0, a.1, retention_days))
}

/// The entry that is seen to next: the next directory or file that goes.
pub open spec fn next_entry(pending: Seq<FoundEntry>, retention_days: u32) -> Option<FoundEntry>
    decreases pending.len(),
{
    if pending.len() == 0 {
        None
    } else if pending.last().is_dir || goes(pending.last(), retention_days) {
        Some(pending.last())
    } else {
        next_entry(pending.drop_last(), retention_days)
    }
}

/// What is left after the next entry was seen to.
pub open spec fn left_pending(pending: Seq<FoundEntry>, retention_days: u32) -> Seq<FoundEntry>
    decreases pending.len(),
{
    if pending.len() == 0 || pending.last().is_dir || goes(pending.last(), retention_days) {
        pending.drop_last()
    } else {
        left_pending(pending.drop_last(), retention_days)
    }
}

impl CleanupRun {
    /// Begin to clean a trash directory whose entries are taken in next.
    pub fn start(retention_days: u32) -> (r: CleanupRun)
        ensures
            r@ == (CleanupState { retention_days, pending: Seq::empty(), dirs: Seq::empty() }),
    {
        let r: CleanupRun = CleanupRun { retention_days, pending: Vec::new(), dirs: Vec::new() };
        assert(r@.pending =~= Seq::empty());
        assert(r@.dirs =~= Seq::empty());
        r
    }

    /// Take in the entries of a directory. They are seen to before what was
    /// found earlier, in order.
    pub fn take_entries(&mut self, entries: Vec<FoundEntry>)
        ensures
            final(self)@ == (CleanupState {
                pending: old(self)@.pending + entries@.reverse(),
                ..old(self)@
            }),
    {
        let ghost s = self@;
        let ghost all = entries@;
        let mut rest: Vec<FoundEntry> = entries;
        assert(rest@ =~= all.take(all.len() as int));
        while rest.len() > 0
            invariant
                rest@.len() <= all.len(),
                rest@ =~= all.take(rest@.len() as int),
                self@.retention_days == s.retention_days,
                self@.dirs == s.dirs,
                self@.pending =~= s.pending + all.reverse().take(all.len() - rest@.len()),
            decreases rest@.len(),
        {
            match rest.pop() {
                Some(e) => {
                    let ghost n = rest@.len() as int;
                    assert(e == all[n]);
                    assert(all.reverse()[all.len() - n - 1] == all[n]);
                    self.pending.push(e);
                    assert(all.reverse().take(all.len() - n) =~= all.reverse().take(
                        all.len() - n - 1,
                    ).push(e));
                },
                None => {},
            }
        }
        assert(all.reverse().take(all.len() as int) =~= all.reverse());
    }

    /// What to do next. `None` where every entry was seen to.
    pub fn next(&mut self) -> (r: Option<CleanupStep>)
        ensures
            match next_entry(old(self)@.pending, old(self)@.retention_days) {
                None => r is None && final(self)@ == (CleanupState {
                    pending: Seq::empty(),
                    ..old(self)@
                }),
                Some(e) => {
                    &&& if e.is_dir {
                        r matches Some(CleanupStep::ReadDir { path }) && path == e.path
                    } else {
                        r matches Some(CleanupStep::DeleteFile { path }) && path == e.path
                    }
                    &&& final(self)@ == (CleanupState {
                        pending: left_pending(old(self)@.pending, old(self)@.retention_days),
                        dirs: if e.is_dir {
                            old(self)@.dirs.push(e.path)
                        } else {
                            old(self)@.dirs
                        },
                        ..old(self)@
                    })
                },
            },
    {
        let ghost s = self@;
        let days: u32 = self.retention_days;
        while self.pending.len() > 0
            invariant
                s == old(self)@,
                days == s.retention_days,
                self@.retention_days == days,
                self@.dirs == s.dirs,
                next_entry(self@.pending, days) == next_entry(s.pending, days),
                next_entry(s.pending, days) is Some ==> left_pending(self@.pending, days)
                    == left_pending(s.pending, days),
            decreases self@.pending.len(),
        {
            let ghost before = self@.pending;
            match self.pending.pop() {
                Some(e) => {
                    assert(self@.pending =~= before.drop_last());
                    assert(e == before.last());
                    if e.is_dir {
                        self.dirs.push(e.path.clone());
                        assert(self@.dirs =~= s.dirs.push(e.path));
                        assert(self@.pending =~= left_pending(s.pending, days));
                        return Some(CleanupStep::ReadDir { path: e.path });
                    }
                    if e.is_file && should_delete(e.age, days) {
                        return Some(CleanupStep::DeleteFile { path: e.path });
                    }
                },
                None => {},
            }
        }
        assert(self@.pending =~= Seq::empty());
        None
    }

    /// The directories that are removed at the end, where they are empty: each
    /// comes before the ones above it.
    pub fn removals(self) -> (r: Vec<String>)
        ensures
            deepest_first(text::texts(r@)),
            r@.to_multiset() == self@.dirs.to_multiset(),
            forall|n: nat| of_depth(r@, n) == #[trigger] of_depth(self@.dirs, n),
    {
        removal_order(self.dirs)
    }
}

/// Cleaning deletes a file only where it was found in the trash and has been
/// there for longer than `retention_days`.
pub proof fn law_only_expired_files_are_deleted(pending: Seq<FoundEntry>, retention_days: u32)
    requires
        next_entry(pending, retention_days) matches Some(e) && !e.is_dir,
    ensures
        exists|i: int|
            0 <= i < pending.len() && Some(#[trigger] pending[i]) == next_entry(
                pending,
                retention_days,
            ) && goes(pending[i], retention_days),
    decreases pending.len(),
{
    let last = pending.len() - 1;
    if pending.last().is_dir || goes(pending.last(), retention_days) {
        assert(pending[last] == pending.last());
    } else {
        law_only_expired_files_are_deleted(pending.drop_last(), retention_days);
        let i = choose|i: int|
            0 <= i < pending.drop_last().len() && Some(#[trigger] pending.drop_last()[i])
                == next_entry(pending.drop_last(), retention_days) && goes(
                pending.drop_last()[i],
                retention_days,
            );
        assert(pending[i] == pending.drop_last()[i]);
    }
}

/// A file goes to the trash directory of its folder, at the place that it has
/// below the folder; one that is not below it, by its name alone.
pub proof fn law_trashed_file_keeps_its_place(path: Seq<char>, root: Seq<char>)
    ensures
        paths::path_below(path, root) matches Some(rel) ==> trash_path_of(path, root)
            == paths::path_joined(paths::path_joined(root, ".immichsync-trash"@), rel),
        paths::path_below(path, root) is None ==> (paths::path_file_name(path) matches Some(name)
            ==> trash_path_of(path, root) == paths::path_joined(
            paths::path_joined(root, ".immichsync-trash"@),
            name,
        )),
{
}

/// The trash is looked for in just the folders whose files go there, at their
/// place in the list.
pub proof fn law_trash_is_where_files_go(folders: Seq<db::FolderRow>, dir: Seq<char>)
    ensures
        trash_dirs(folders).contains(dir) <==> exists|i: int|
            0 <= i < folders.len() && (#[trigger] folders[i]).post_upload is Trash && dir
                == paths::path_joined(folders[i].path, ".immichsync-trash"@),
{
    let keep = |f: db::FolderRow| f.post_upload is Trash;
    let kept = folders.filter(keep);
    let all = trash_dirs(folders);
    if all.contains(dir) {
        let j = choose|j: int| 0 <= j < all.len() && all[j] == dir;
        text::lemma_filter_keeps(folders, keep, kept[j]);
        assert(kept.contains(kept[j]));
        let i = choose|i: int| 0 <= i < folders.len() && folders[i] == kept[j];
        assert(folders[i].post_upload is Trash);
    }
    if exists|i: int|
        0 <= i < folders.len() && (#[trigger] folders[i]).post_upload is Trash && dir
            == paths::path_joined(folders[i].path, ".immichsync-trash"@) {
        let i = choose|i: int|
            0 <= i < folders.len() && (#[trigger] folders[i]).post_upload is Trash && dir
                == paths::path_joined(folders[i].path, ".immichsync-trash"@);
        text::lemma_filter_keeps(folders, keep, folders[i]);
        let j = choose|j: int| 0 <= j < kept.len() && kept[j] == folders[i];
        assert(all[j] == dir);
    }
}

/// A file stays in the trash for the days of the retention, to the second, and
/// goes once it has been there any longer; one that would go still goes when it
/// is older or the retention shorter.
pub proof fn law_files_stay_for_the_retention(
    secs: u64,
    nanos: u32,
    older: u64,
    days: u32,
    fewer: u32,
)
    requires
        older >= secs,
        fewer <= days,
    ensures
        secs < 86400 * days ==> !expired(secs, nanos, days),
        secs == 86400 * days ==> (expired(secs, nanos, days) <==> nanos > 0),
        secs > 86400 * days ==> expired(secs, nanos, days),
        expired(secs, nanos, days) ==> expired(older, nanos, days) && expired(secs, nanos, fewer),
{
}

/// Only files go, and of these just the ones that are known to be older than the
/// retention; a directory never goes by its age.
pub proof fn law_what_goes_is_an_old_file(e: FoundEntry, days: u32)
    ensures
        goes(e, days) ==> e.is_file && !e.is_dir && e.age is Some,
        e.is_file && !e.is_dir ==> (e.age matches Some(a) ==> (goes(e, days) <==> expired(
            a.0,
            a.1,
            days,
        ))),
{
}

/// The cleanup passes nothing over: what it takes up next is the last of the
/// found entries that is a directory or a file to delete, what it leaves are the
/// ones before it, and it ends only where there is none.
pub proof fn law_cleanup_passes_nothing_over(pending: Seq<FoundEntry>, days: u32) -> (k: int)
    ensures
        -1 <= k < pending.len(),
        forall|i: int|
            k < i < pending.len() ==> !(#[trigger] pending[i]).is_dir && !goes(pending[i], days),
        k < 0 ==> next_entry(pending, days) is None,
        k >= 0 ==> next_entry(pending, days) == Some(pending[k]) && left_pending(pending, days)
            == pending.take(k) && (pending[k].is_dir || goes(pending[k], days)),
    decreases pending.len(),
{
    if pending.len() == 0 {
        -1
    } else if pending.last().is_dir || goes(pending.last(), days) {
        assert(pending.take(pending.len() - 1) =~= pending.drop_last());
        pending.len() - 1
    } else {
        let d = pending.drop_last();
        let k = law_cleanup_passes_nothing_over(d, days);
        assert forall|i: int| k < i < pending.len() implies !(#[trigger] pending[i]).is_dir && !goes(
            pending[i],
            days,
        ) by {
            if i < d.len() {
                assert(d[i] == pending[i]);
            }
        }
        if k >= 0 {
            assert(d.take(k) =~= pending.take(k));
        }
        k
    }
}

/// A directory is removed before every one that it lies in: the deeper ones come
/// first.
pub proof fn law_deeper_directories_go_first(dirs: Seq<Seq<char>>, i: int, j: int)
    requires
        deepest_first(dirs),
        0 <= i < dirs.len(),
        0 <= j < dirs.len(),
        paths::path_components(dirs[i]).len() > paths::path_components(dirs[j]).len(),
    ensures
        i < j,
{
    if j < i {
        assert(depth_of(dirs[j]) >= depth_of(dirs[i]));
    }
}

} // verus!
