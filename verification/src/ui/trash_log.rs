//! The window with the trashed files.

use vstd::prelude::*;

use crate::paths;
use crate::text;
use crate::text::{concat2, concat3, text_less, u64_text};

verus! {

broadcast use vstd::seq::group_seq_axioms;

/// A trashed file.
#[derive(Debug)]
pub struct TrashEntry {
    /// Its path in the trash.
    pub relative_path: String,
    /// The name of its watched folder.
    pub folder: String,
    /// Its size in bytes.
    pub size: u64,
    /// When it was trashed.
    pub trashed_at: String,
}

/// The path of a file in the trash; its name where it is not in the trash.
pub open spec fn path_in_trash(path: Seq<char>, trash_root: Seq<char>) -> Seq<char> {
    match paths::path_below(path, trash_root) {
        Some(rel) => rel,
        None => match paths::path_file_name(path) {
            Some(name) => name,
            None => ""@,
        },
    }
}

/// The name of a watched folder; its path where it has no name.
pub open spec fn folder_name(path: Seq<char>) -> Seq<char> {
    match paths::path_file_name(path) {
        Some(name) => name,
        None => path,
    }
}

/// What a file's metadata says: its size and when it was changed.
#[derive(Debug)]
pub struct TrashedFacts {
    pub size: u64,
    /// `None` where it cannot be told.
    pub modified: Option<String>,
}

/// A trashed file. `facts` is what its metadata says, where it can be read.
pub fn trash_entry(path: &str, trash_root: &str, folder_path: &str, facts: Option<TrashedFacts>)
    -> (r: TrashEntry)
    ensures
        r.relative_path@ == path_in_trash(path@, trash_root@),
        r.folder@ == folder_name(folder_path@),
        match facts {
            Some(f) => r.size == f.size && r.trashed_at@ == (match text::opt_text(f.modified) {
                Some(t) => t,
                None => ""@,
            }),
            None => r.size == 0 && r.trashed_at@ == ""@,
        },
{
    let relative_path: String = match paths::strip_base(path, trash_root) {
        Some(rel) => rel,
        None => match paths::file_name(path) {
            Some(name) => name,
            None => "".to_owned(),
        },
    };
    let folder: String = match paths::file_name(folder_path) {
        Some(name) => name,
        None => folder_path.to_owned(),
    };
    match facts {
        Some(f) => TrashEntry {
            relative_path,
            folder,
            size: f.size,
            trashed_at: match f.modified {
                Some(t) => t,
                None => "".to_owned(),
            },
        },
        None => TrashEntry { relative_path, folder, size: 0, trashed_at: "".to_owned() },
    }
}

/// Whether the most recent entries come first.
pub open spec fn newest_first(v: Seq<TrashEntry>) -> bool {
    forall|i: int, j: int|
        0 <= i < j < v.len() ==> !text::text_before(
            (#[trigger] v[i]).trashed_at@,
            (#[trigger] v[j]).trashed_at@,
        )
}

/// An ordered list with one more entry, after those that are not older.
pub open spec fn placed(v: Seq<TrashEntry>, e: TrashEntry) -> Seq<TrashEntry>
    decreases v.len(),
{
    if v.len() > 0 && text::text_before(v.last().trashed_at@, e.trashed_at@) {
        placed(v.drop_last(), e).push(v.last())
    } else {
        v.push(e)
    }
}

/// Entries with the most recent first; those of the same time in the order in
/// which they were.
pub open spec fn ordered(v: Seq<TrashEntry>) -> Seq<TrashEntry>
    decreases v.len(),
{
    if v.len() == 0 {
        v
    } else {
        placed(ordered(v.drop_last()), v.last())
    }
}

proof fn lemma_placed(v: Seq<TrashEntry>, e: TrashEntry, k: int)
    requires
        0 <= k <= v.len(),
        forall|j: int|
            k <= j < v.len() ==> text::text_before((#[trigger] v[j]).trashed_at@, e.trashed_at@),
        k > 0 ==> !text::text_before(v[k - 1].trashed_at@, e.trashed_at@),
    ensures
        placed(v, e) == v.insert(k, e),
    decreases v.len(),
{
    if k < v.len() {
        let rest = v.drop_last();
        assert(text::text_before(v[v.len() - 1].trashed_at@, e.trashed_at@));
        assert forall|j: int| k <= j < rest.len() implies text::text_before(
            (#[trigger] rest[j]).trashed_at@,
            e.trashed_at@,
        ) by {
            assert(rest[j] == v[j]);
        }
        lemma_placed(rest, e, k);
        assert(rest.insert(k, e).push(v.last()) =~= v.insert(k, e));
    } else {
        assert(v.push(e) =~= v.insert(k, e));
    }
}

fn insert_entry(v: &mut Vec<TrashEntry>, e: TrashEntry)
    ensures
        final(v)@ == placed(old(v)@, e),
{
    let ghost before = v@;
    let mut k: usize = v.len();
    while k > 0 && text_less(&v[k - 1].trashed_at, &e.trashed_at)
        invariant
            k <= v@.len(),
            v@ == before,
            forall|j: int|
                k <= j < v@.len() ==> text::text_before(
                    (#[trigger] v@[j]).trashed_at@,
                    e.trashed_at@,
                ),
        decreases k,
    {
        k -= 1;
    }
    proof {
        lemma_placed(before, e, k as int);
    }
    v.insert(k, e);
    assert(v@ =~= before.insert(k as int, e));
}

impl Clone for TrashEntry {
    fn clone(&self) -> (r: Self)
        ensures
            r == *self,
    {
        TrashEntry {
            relative_path: self.relative_path.clone(),
            folder: self.folder.clone(),
            size: self.size,
            trashed_at: self.trashed_at.clone(),
        }
    }
}

/// The trashed files, the most recent first.
pub fn load_trash_entries(found: &Vec<TrashEntry>) -> (r: Vec<TrashEntry>)
    ensures
        r@ == ordered(found@),
{
    let mut r: Vec<TrashEntry> = Vec::new();
    let mut i: usize = 0;
    assert(found@.take(0) =~= Seq::<TrashEntry>::empty());
    while i < found.len()
        invariant
            i <= found@.len(),
            r@ =~= ordered(found@.take(i as int)),
        decreases found@.len() - i,
    {
        assert(found@.take(i + 1).drop_last() =~= found@.take(i as int));
        assert(found@.take(i + 1).last() == found@[i as int]);
        insert_entry(&mut r, found[i].clone());
        i += 1;
    }
    assert(found@.take(found@.len() as int) =~= found@);
    r
}

proof fn lemma_placed_keeps_order(v: Seq<TrashEntry>, e: TrashEntry)
    requires
        newest_first(v),
    ensures
        newest_first(placed(v, e)),
        placed(v, e).to_multiset() == v.to_multiset().insert(e),
        placed(v, e).len() == v.len() + 1,
        forall|i: int|
            0 <= i < placed(v, e).len() ==> placed(v, e)[i] == e || v.contains(
                #[trigger] placed(v, e)[i],
            ),
    decreases v.len(),
{
    let p = placed(v, e);
    v.to_multiset_ensures();
    if v.len() > 0 && text::text_before(v.last().trashed_at@, e.trashed_at@) {
        let rest = v.drop_last();
        let q = placed(rest, e);
        let last = v.last();
        assert(newest_first(rest)) by {
            assert forall|i: int, j: int| 0 <= i < j < rest.len() implies !text::text_before(
                (#[trigger] rest[i]).trashed_at@,
                (#[trigger] rest[j]).trashed_at@,
            ) by {
                assert(rest[i] == v[i] && rest[j] == v[j]);
            }
        }
        lemma_placed_keeps_order(rest, e);
        q.to_multiset_ensures();
        rest.to_multiset_ensures();
        assert(v =~= rest.push(last));
        assert(p.to_multiset() =~= v.to_multiset().insert(e));
        assert forall|i: int| 0 <= i < q.len() implies !text::text_before(
            (#[trigger] q[i]).trashed_at@,
            last.trashed_at@,
        ) by {
            if q[i] == e {
                if text::text_before(e.trashed_at@, last.trashed_at@) {
                    text::lemma_text_before_transitive(
                        e.trashed_at@,
                        last.trashed_at@,
                        e.trashed_at@,
                    );
                    text::lemma_text_before_irreflexive(e.trashed_at@);
                }
            } else {
                let k = choose|k: int| 0 <= k < rest.len() && rest[k] == q[i];
                assert(v[k] == q[i]);
                assert(v[v.len() - 1] == last);
            }
        }
        assert forall|i: int| 0 <= i < p.len() implies p[i] == e || v.contains(
            #[trigger] p[i],
        ) by {
            if i < q.len() {
                assert(p[i] == q[i]);
                if q[i] != e {
                    let k = choose|k: int| 0 <= k < rest.len() && rest[k] == q[i];
                    assert(v[k] == p[i]);
                }
            } else {
                assert(v[v.len() - 1] == p[i]);
            }
        }
    } else {
        assert forall|i: int| 0 <= i < v.len() implies !text::text_before(
            (#[trigger] v[i]).trashed_at@,
            e.trashed_at@,
        ) by {
            let last = v[v.len() - 1];
            if i < v.len() - 1 && text::text_before(v[i].trashed_at@, e.trashed_at@) {
                assert(!text::text_before(v[i].trashed_at@, last.trashed_at@));
                text::lemma_text_before_weak(v[i].trashed_at@, last.trashed_at@, e.trashed_at@);
            }
        }
        assert forall|i: int| 0 <= i < p.len() implies p[i] == e || v.contains(
            #[trigger] p[i],
        ) by {
            if i < v.len() {
                assert(v[i] == p[i]);
            }
        }
    }
}

/// The list of trashed files shows every file once, the most recent first.
pub proof fn law_trash_list_is_ordered(v: Seq<TrashEntry>)
    ensures
        newest_first(ordered(v)),
        ordered(v).to_multiset() == v.to_multiset(),
    decreases v.len(),
{
    if v.len() > 0 {
        law_trash_list_is_ordered(v.drop_last());
        lemma_placed_keeps_order(ordered(v.drop_last()), v.last());
        v.drop_last().to_multiset_ensures();
        assert(v =~= v.drop_last().push(v.last()));
    }
}

// ── Sizes ───────────────────────────────────────────────────────────────────

/// `n / d`, rounded to the nearest number; to the even one of two that are
/// equally near.
pub open spec fn rounded(n: nat, d: nat) -> nat
    recommends
        d > 0,
{
    let q = n / d;
    let rest = n % d;
    if 2 * rest < d || (2 * rest == d && q % 2 == 0) {
        q
    } else {
        q + 1
    }
}

/// A size in bytes, or in the largest unit of which it holds at least one: in
/// kilobytes and megabytes with one decimal, in gigabytes with two.
pub open spec fn size_text(bytes: u64) -> Seq<char> {
    if bytes < 0x400 {
        text::decimal(bytes as nat) + " B"@
    } else if bytes < 0x10_0000 {
        fixed_point(rounded(10 * bytes as nat, 0x400), 1) + " KB"@
    } else if bytes < 0x4000_0000 {
        megabytes_text(bytes) + " MB"@
    } else {
        fixed_point(rounded(100 * bytes as nat, 0x4000_0000), 2) + " GB"@
    }
}

/// A number of tenths or hundredths with a decimal point.
pub open spec fn fixed_point(n: nat, places: nat) -> Seq<char> {
    if places == 1 {
        text::decimal(n / 10) + "."@ + text::decimal(n % 10)
    } else {
        text::decimal(n / 100) + "."@ + text::decimal(n % 100 / 10) + text::decimal(n % 10)
    }
}

fn round_quotient(n: u128, d: u128) -> (r: u64)
    requires
        0 < d,
        d <= 0x4000_0000,
        n / d < u64::MAX,
    ensures
        r == rounded(n as nat, d as nat),
{
    let q: u128 = n / d;
    let rest: u128 = n % d;
    assert(rest < d);
    if 2 * rest < d || (2 * rest == d && q % 2 == 0) {
        q as u64
    } else {
        (q + 1) as u64
    }
}

fn fixed_point_text(n: u64, places: u8) -> (r: String)
    requires
        places == 1 || places == 2,
    ensures
        r@ == fixed_point(n as nat, places as nat),
{
    if places == 1 {
        concat3(&u64_text(n / 10), ".", &u64_text(n % 10))
    } else {
        let mut r: String = concat3(&u64_text(n / 100), ".", &u64_text(n % 100 / 10));
        r.append(&u64_text(n % 10));
        r
    }
}

/// A size as it is shown.
pub fn format_size(bytes: u64) -> (r: String)
    ensures
        r@ == size_text(bytes),
{
    if bytes < 0x400 {
        concat2(&u64_text(bytes), " B")
    } else if bytes < 0x10_0000 {
        concat2(&fixed_point_text(round_quotient(10 * bytes as u128, 0x400), 1), " KB")
    } else if bytes < 0x4000_0000 {
        concat2(&megabytes(bytes), " MB")
    } else {
        concat2(&fixed_point_text(round_quotient(100 * bytes as u128, 0x4000_0000), 2), " GB")
    }
}

/// A size in megabytes with one decimal.
pub open spec fn megabytes_text(bytes: u64) -> Seq<char> {
    fixed_point(rounded(10 * bytes as nat, 0x10_0000), 1)
}

/// A size in megabytes with one decimal.
pub fn megabytes(bytes: u64) -> (r: String)
    ensures
        r@ == megabytes_text(bytes),
{
    fixed_point_text(round_quotient(10 * bytes as u128, 0x10_0000), 1)
}

/// The sum of the sizes of entries.
pub open spec fn total_size(v: Seq<TrashEntry>) -> nat
    decreases v.len(),
{
    if v.len() == 0 {
        0
    } else {
        total_size(v.drop_last()) + v.last().size as nat
    }
}

/// The line above the entries: how many files there are, and their size.
pub open spec fn summary_of(v: Seq<TrashEntry>) -> Seq<char> {
    text::decimal(v.len()) + " file"@ + (if v.len() == 1 {
        ""@
    } else {
        "s"@
    }) + " — "@ + size_text(total_size(v) as u64)
}

proof fn lemma_total_grows(v: Seq<TrashEntry>, n: int)
    requires
        0 <= n <= v.len(),
    ensures
        total_size(v.take(n)) <= total_size(v),
    decreases v.len() - n,
{
    if n < v.len() {
        lemma_total_grows(v, n + 1);
        assert(v.take(n + 1).drop_last() =~= v.take(n));
    } else {
        assert(v.take(n) =~= v);
    }
}

/// The line above the entries.
pub fn summary(entries: &Vec<TrashEntry>) -> (r: String)
    requires
        total_size(entries@) <= u64::MAX,
    ensures
        r@ == summary_of(entries@),
{
    let mut total: u64 = 0;
    let mut i: usize = 0;
    assert(entries@.take(0) =~= Seq::<TrashEntry>::empty());
    while i < entries.len()
        invariant
            i <= entries@.len(),
            total_size(entries@) <= u64::MAX,
            total == total_size(entries@.take(i as int)),
        decreases entries@.len() - i,
    {
        proof {
            lemma_total_grows(entries@, i + 1);
            assert(entries@.take(i + 1).drop_last() =~= entries@.take(i as int));
            assert(entries@.take(i + 1).last() == entries@[i as int]);
        }
        total = total + entries[i].size;
        i += 1;
    }
    assert(entries@.take(entries@.len() as int) =~= entries@);
    let mut r: String = concat2(&u64_text(entries.len() as u64), " file");
    if entries.len() != 1 {
        r.append("s");
    } else {
        r.append("");
    }
    r.append(" — ");
    r.append(&format_size(total));
    r
}

/// A list that is ordered stays as it is: files of one time keep their order.
pub proof fn law_files_of_one_time_keep_their_order(v: Seq<TrashEntry>)
    requires
        newest_first(v),
    ensures
        ordered(v) == v,
    decreases v.len(),
{
    if v.len() > 0 {
        let d = v.drop_last();
        assert forall|i: int, j: int| 0 <= i < j < d.len() implies !text::text_before(
            (#[trigger] d[i]).trashed_at@,
            (#[trigger] d[j]).trashed_at@,
        ) by {
            assert(d[i] == v[i] && d[j] == v[j]);
        }
        law_files_of_one_time_keep_their_order(d);
        if d.len() > 0 {
            assert(!text::text_before(v[d.len() - 1].trashed_at@, v[v.len() - 1].trashed_at@));
        }
        assert(d.push(v.last()) =~= v);
    }
}

/// A file is listed by its place in the trash, else by its name; its folder by the
/// folder's name.
pub proof fn law_trashed_file_is_listed_by_its_place(
    path: Seq<char>,
    root: Seq<char>,
    rel: Seq<char>,
    name: Seq<char>,
)
    ensures
        paths::path_below(path, root) == Some(rel) ==> path_in_trash(path, root) == rel,
        paths::path_below(path, root) is None && paths::path_file_name(path) == Some(name)
            ==> path_in_trash(path, root) == name,
        paths::path_below(path, root) is None && paths::path_file_name(path) is None
            ==> path_in_trash(path, root) == ""@,
        paths::path_file_name(path) == Some(name) ==> folder_name(path) == name,
        paths::path_file_name(path) is None ==> folder_name(path) == path,
{
}

/// A quotient is rounded to the nearest number, and from the middle to the even
/// one.
pub proof fn law_quotients_are_rounded(n: nat, d: nat)
    requires
        d > 0,
    ensures
        2 * n <= (2 * rounded(n, d) + 1) * d,
        2 * n + d >= 2 * rounded(n, d) * d,
        n % d == 0 ==> rounded(n, d) == n / d,
        2 * (n % d) == d ==> rounded(n, d) % 2 == 0,
{
    let q = n / d;
    let rest = n % d;
    vstd::arithmetic::div_mod::lemma_fundamental_div_mod(n as int, d as int);
    vstd::arithmetic::div_mod::lemma_mod_bound(n as int, d as int);
    assert(n == d * q + rest);
    assert((2 * q + 1) * d == 2 * (d * q) + d) by (nonlinear_arith);
    assert((2 * (q + 1) + 1) * d == 2 * (d * q) + 3 * d) by (nonlinear_arith);
    assert(2 * q * d == 2 * (d * q)) by (nonlinear_arith);
    assert(2 * (q + 1) * d == 2 * (d * q) + 2 * d) by (nonlinear_arith);
}

/// Sizes are given in bytes below one kilobyte, then in kilobytes, megabytes and
/// gigabytes, to one and in the end two places.
pub proof fn law_sizes_are_given_in_their_unit(bytes: u64)
    ensures
        bytes < 1024 ==> size_text(bytes) == text::decimal(bytes as nat) + " B"@,
        1024 <= bytes < 1048576 ==> size_text(bytes) == fixed_point(
            rounded(10 * bytes as nat, 1024),
            1,
        ) + " KB"@,
        1048576 <= bytes < 1073741824 ==> size_text(bytes) == fixed_point(
            rounded(10 * bytes as nat, 1048576),
            1,
        ) + " MB"@,
        1073741824 <= bytes ==> size_text(bytes) == fixed_point(
            rounded(100 * bytes as nat, 1073741824),
            2,
        ) + " GB"@,
        megabytes_text(bytes) == fixed_point(rounded(10 * bytes as nat, 1048576), 1),
{
}

/// A number of tenths is written with its last digit behind a point, one of
/// hundredths with its last two.
pub proof fn law_places_follow_the_point(whole: nat, tenths: nat, hundredths: nat)
    requires
        tenths < 10,
        hundredths < 10,
    ensures
        fixed_point(10 * whole + tenths, 1) == text::decimal(whole) + "."@ + text::decimal(tenths),
        fixed_point(100 * whole + 10 * tenths + hundredths, 2) == text::decimal(whole) + "."@
            + text::decimal(tenths) + text::decimal(hundredths),
{
}

/// The summary gives the number of the files and the sum of their sizes.
pub proof fn law_summary_adds_up(v: Seq<TrashEntry>, e: TrashEntry)
    ensures
        total_size(Seq::empty()) == 0,
        total_size(v.push(e)) == total_size(v) + e.size,
        summary_of(v) == text::decimal(v.len()) + " file"@ + (if v.len() == 1 {
            ""@
        } else {
            "s"@
        }) + " — "@ + size_text(total_size(v) as u64),
{
    assert(v.push(e).drop_last() =~= v);
}

} // verus!
