//! Log retention.
//!
//! The log rotates daily and is never deleted by the logger. The log directory
//! is held to a byte budget: while it is over budget, the oldest files go, but
//! never the one of today.

use std::cmp::Ordering;

use vstd::prelude::*;

use crate::clock;
use crate::clock::{dashed_date_text, today, CalendarDay, Timestamp};
use crate::text;
use crate::text::{chars_of, has_prefix, str_eq, strip_prefix, text_less};

verus! {

broadcast use vstd::seq::group_seq_axioms;

/// The budget of the log directory: 1 GiB.
pub const DEFAULT_LOG_CAP_BYTES: u64 = 1_073_741_824;

/// The name of the log, and what rotated logs start with.
pub const LOG_NAME: &'static str = "immichsync.log";

/// What precedes the date of a rotated log.
pub const LOG_PREFIX: &'static str = "immichsync.log.";

// ── Names ───────────────────────────────────────────────────────────────────

/// Whether a file name is that of a log of this application.
pub open spec fn log_name(name: Seq<char>) -> bool {
    name == LOG_NAME@ || LOG_PREFIX@.is_prefix_of(name)
}

/// Whether a file name is that of a log of this application.
pub fn is_immichsync_log(name: &str) -> (r: bool)
    ensures
        r == log_name(name@),
{
    str_eq(name, LOG_NAME) || has_prefix(name, LOG_PREFIX)
}

/// Whether a text has the shape `YYYY-MM-DD`.
pub open spec fn date_shaped(s: Seq<char>) -> bool {
    &&& s.len() == 10
    &&& forall|i: int|
        0 <= i < 10 ==> if i == 4 || i == 7 {
            #[trigger] s[i] == '-'
        } else {
            text::is_digit(s[i])
        }
}

/// The date at the end of the name of a rotated log.
pub open spec fn date_of(name: Seq<char>) -> Option<Seq<char>> {
    match text::prefix_removed(name, LOG_PREFIX@) {
        Some(s) => if date_shaped(s) {
            Some(s)
        } else {
            None
        },
        None => None,
    }
}

/// The date at the end of the name of a rotated log, where it has the shape of
/// one.
pub fn parse_date_suffix(name: &str) -> (r: Option<String>)
    ensures
        text::opt_text(r) == date_of(name@),
{
    let suffix: String = match strip_prefix(name, LOG_PREFIX) {
        Some(s) => s,
        None => {
            return None;
        },
    };
    let v: Vec<char> = chars_of(&suffix);
    if v.len() != 10 {
        return None;
    }
    let mut i: usize = 0;
    while i < 10
        invariant
            i <= 10,
            v@.len() == 10,
            v@ == suffix@,
            text::prefix_removed(name@, LOG_PREFIX@) == Some(suffix@),
            forall|j: int|
                0 <= j < i ==> if j == 4 || j == 7 {
                    #[trigger] v@[j] == '-'
                } else {
                    text::is_digit(v@[j])
                },
        decreases 10 - i,
    {
        let c: char = v[i];
        let fits: bool = if i == 4 || i == 7 {
            c == '-'
        } else {
            '0' <= c && c <= '9'
        };
        if !fits {
            assert(!date_shaped(suffix@)) by {
                assert(suffix@[i as int] == c);
            }
            return None;
        }
        i += 1;
    }
    Some(suffix)
}

// ── Entries ─────────────────────────────────────────────────────────────────

/// A log file.
#[derive(Debug)]
pub struct LogEntry {
    pub path: String,
    pub name: String,
    /// The date at the end of the name, if any.
    pub date_suffix: Option<String>,
    pub mtime: Timestamp,
    pub size: u64,
}

impl LogEntry {
    /// The entry of a file in the log directory; `None` for a file that is no
    /// log of this application.
    pub fn of_file(path: &str, name: &str, mtime: Timestamp, size: u64) -> (r: Option<LogEntry>)
        ensures
            match r {
                Some(e) => {
                    &&& log_name(name@)
                    &&& e.path@ == path@
                    &&& e.name@ == name@
                    &&& text::opt_text(e.date_suffix) == date_of(name@)
                    &&& e.mtime == mtime
                    &&& e.size == size
                },
                None => !log_name(name@),
            },
    {
        if !is_immichsync_log(name) {
            return None;
        }
        Some(
            LogEntry {
                path: path.to_owned(),
                name: name.to_owned(),
                date_suffix: parse_date_suffix(name),
                mtime,
                size,
            },
        )
    }

    /// Whether the file is the log of this date.
    pub open spec fn dated(self, today: Seq<char>) -> bool {
        text::opt_text(self.date_suffix) == Some(today)
    }

    /// Whether the file is the log of today.
    pub fn is_today(&self, today_suffix: &str) -> (r: bool)
        ensures
            r == self.dated(today_suffix@),
    {
        match &self.date_suffix {
            Some(d) => str_eq(d, today_suffix),
            None => false,
        }
    }

    /// Compare by age, the older first.
    pub fn cmp_age(a: &LogEntry, b: &LogEntry) -> (r: Ordering)
        ensures
            match r {
                Ordering::Less => older(*a, *b),
                Ordering::Equal => !older(*a, *b) && !older(*b, *a),
                Ordering::Greater => older(*b, *a),
            },
    {
        if older_than(a, b) {
            Ordering::Less
        } else if older_than(b, a) {
            Ordering::Greater
        } else {
            Ordering::Equal
        }
    }
}

impl Clone for LogEntry {
    fn clone(&self) -> (r: Self)
        ensures
            r == *self,
    {
        LogEntry {
            path: self.path.clone(),
            name: self.name.clone(),
            date_suffix: text::clone_opt(&self.date_suffix),
            mtime: self.mtime,
            size: self.size,
        }
    }
}

/// Whether a point in time lies before another.
pub open spec fn earlier(a: Timestamp, b: Timestamp) -> bool {
    a.secs < b.secs || (a.secs == b.secs && a.nanos < b.nanos)
}

/// Whether `a` counts as older than `b`: by the date in the name; a file
/// without a date is younger than one with a date; two without go by their
/// modification time. The name decides between files of the same age.
pub open spec fn older(a: LogEntry, b: LogEntry) -> bool {
    match (text::opt_text(a.date_suffix), text::opt_text(b.date_suffix)) {
        (Some(x), Some(y)) => text::text_before(x, y) || (x == y && text::text_before(
            a.name@,
            b.name@,
        )),
        (Some(_), None) => true,
        (None, Some(_)) => false,
        (None, None) => earlier(a.mtime, b.mtime) || (a.mtime == b.mtime && text::text_before(
            a.name@,
            b.name@,
        )),
    }
}

fn older_than(a: &LogEntry, b: &LogEntry) -> (r: bool)
    ensures
        r == older(*a, *b),
{
    match (&a.date_suffix, &b.date_suffix) {
        (Some(x), Some(y)) => text_less(x, y) || (str_eq(x, y) && text_less(&a.name, &b.name)),
        (Some(_), None) => true,
        (None, Some(_)) => false,
        (None, None) => {
            let s: Timestamp = a.mtime;
            let t: Timestamp = b.mtime;
            s.secs < t.secs || (s.secs == t.secs && s.nanos < t.nanos) || (s.secs == t.secs
                && s.nanos == t.nanos && text_less(&a.name, &b.name))
        },
    }
}

/// Age is a weak order: where `a` is older than `c`, any `b` is younger than
/// `a` or older than `c`.
proof fn lemma_older_weak(a: LogEntry, b: LogEntry, c: LogEntry)
    requires
        older(a, c),
    ensures
        older(a, b) || older(b, c),
{
    let x = text::opt_text(a.date_suffix);
    let y = text::opt_text(b.date_suffix);
    let z = text::opt_text(c.date_suffix);
    if x is Some && y is Some && z is Some {
        if text::text_before(x->0, z->0) {
            text::lemma_text_before_weak(x->0, y->0, z->0);
        } else {
            text::lemma_text_before_weak(a.name@, b.name@, c.name@);
            text::lemma_text_before_total(x->0, y->0);
        }
    } else if x is None && y is None && z is None {
        if a.mtime == c.mtime {
            text::lemma_text_before_weak(a.name@, b.name@, c.name@);
        }
    }
}

proof fn lemma_older_irreflexive(a: LogEntry)
    ensures
        !older(a, a),
{
    text::lemma_text_before_irreflexive(a.name@);
    if let Some(d) = text::opt_text(a.date_suffix) {
        text::lemma_text_before_irreflexive(d);
    }
}

// ── Pruning ─────────────────────────────────────────────────────────────────

/// The sum of the sizes of some files.
pub open spec fn total_size(v: Seq<LogEntry>) -> nat
    decreases v.len(),
{
    if v.len() == 0 {
        0
    } else {
        total_size(v.drop_last()) + v.last().size as nat
    }
}

/// Whether the files are to be pruned: together they are over budget, and the
/// log of today is not over budget by itself. A log that outgrows the budget
/// within a day points to a fault, and is left for inspection with all others.
pub open spec fn prunes(v: Seq<LogEntry>, today: Seq<char>, cap_bytes: u64) -> bool {
    &&& total_size(v) > cap_bytes
    &&& forall|i: int|
        0 <= i < v.len() && (#[trigger] v[i]).dated(today) ==> v[i].size <= cap_bytes
}

/// Whether no entry is older than one before it.
pub open spec fn oldest_first(v: Seq<LogEntry>) -> bool {
    forall|i: int, j: int| 0 <= i < j < v.len() ==> !older(#[trigger] v[j], #[trigger] v[i])
}

/// The files that may be deleted, in the order in which they are: all but the
/// log of today, the oldest first.
pub open spec fn is_candidates(c: Seq<LogEntry>, v: Seq<LogEntry>, today: Seq<char>) -> bool {
    &&& oldest_first(c)
    &&& c.to_multiset() == v.filter(|e: LogEntry| !e.dated(today)).to_multiset()
}

/// Pruning of the log directory. Whoever runs it deletes the file that
/// [`PruneRun::next`] names and says whether that worked.
pub struct PruneRun {
    candidates: Vec<LogEntry>,
    position: usize,
    total: u128,
    cap_bytes: u64,
    pruned: usize,
}

/// The contents of a [`PruneRun`].
#[verifier::ext_equal]
pub struct PruneState {
    /// The files that may be deleted, in order.
    pub candidates: Seq<LogEntry>,
    /// How many of them were tried.
    pub position: nat,
    /// The size of what is left.
    pub total: int,
    pub cap_bytes: u64,
    /// How many were deleted.
    pub pruned: int,
}

impl View for PruneRun {
    type V = PruneState;

    closed spec fn view(&self) -> PruneState {
        PruneState {
            candidates: self.candidates@,
            position: self.position as nat,
            total: self.total as int,
            cap_bytes: self.cap_bytes,
            pruned: self.pruned as int,
        }
    }
}

/// What holds of every run: the files that were not tried are part of the
/// total.
pub open spec fn prune_valid(s: PruneState) -> bool {
    &&& s.position <= s.candidates.len()
    &&& s.pruned <= s.position
    &&& total_size(s.candidates.skip(s.position as int)) <= s.total
}

/// The file to delete next: the oldest that was not tried, while what is left
/// is over budget.
pub open spec fn prune_next(s: PruneState) -> Option<LogEntry> {
    if s.total > s.cap_bytes && s.position < s.candidates.len() {
        Some(s.candidates[s.position as int])
    } else {
        None
    }
}

/// The state after the file was tried.
pub open spec fn prune_step(s: PruneState, deleted: bool) -> PruneState {
    match prune_next(s) {
        Some(e) => PruneState {
            position: s.position + 1,
            total: if deleted {
                s.total - e.size
            } else {
                s.total
            },
            pruned: if deleted {
                s.pruned + 1
            } else {
                s.pruned
            },
            ..s
        },
        None => s,
    }
}

proof fn lemma_total_size_add(a: Seq<LogEntry>, b: Seq<LogEntry>)
    ensures
        total_size(a + b) == total_size(a) + total_size(b),
    decreases b.len(),
{
    if b.len() == 0 {
        assert(a + b =~= a);
    } else {
        lemma_total_size_add(a, b.drop_last());
        assert((a + b).drop_last() =~= a + b.drop_last());
    }
}

proof fn lemma_total_size_insert(v: Seq<LogEntry>, k: int, e: LogEntry)
    requires
        0 <= k <= v.len(),
    ensures
        total_size(v.insert(k, e)) == total_size(v) + e.size,
{
    let a = v.take(k);
    let b = v.skip(k);
    assert(v =~= a + b);
    assert(v.insert(k, e) =~= a + seq![e] + b);
    lemma_total_size_add(a, b);
    lemma_total_size_add(a + seq![e], b);
    lemma_total_size_add(a, seq![e]);
    assert(total_size(seq![e]) == e.size) by {
        assert(seq![e].drop_last() =~= Seq::<LogEntry>::empty());
        assert(total_size(Seq::<LogEntry>::empty()) == 0);
    }
}

proof fn lemma_total_size_bound(v: Seq<LogEntry>)
    ensures
        total_size(v) <= v.len() * u64::MAX,
    decreases v.len(),
{
    if v.len() > 0 {
        lemma_total_size_bound(v.drop_last());
        assert((v.len() - 1) * u64::MAX + u64::MAX == v.len() * u64::MAX) by (nonlinear_arith);
    }
}

/// The sum of the sizes of some files.
fn sum_sizes(v: &Vec<LogEntry>) -> (r: u128)
    ensures
        r == total_size(v@),
{
    let mut r: u128 = 0;
    let mut i: usize = 0;
    assert(v@.take(0) =~= Seq::<LogEntry>::empty());
    while i < v.len()
        invariant
            i <= v@.len(),
            r == total_size(v@.take(i as int)),
        decreases v@.len() - i,
    {
        proof {
            assert(v@.take(i + 1).drop_last() =~= v@.take(i as int));
            lemma_total_size_bound(v@.take(i as int));
            assert(i * u64::MAX <= 0xffff_ffff_ffff_ffff * u64::MAX) by (nonlinear_arith)
                requires
                    i <= 0xffff_ffff_ffff_ffff,
            ;
        }
        r = r + v[i].size as u128;
        i += 1;
    }
    assert(v@.take(v@.len() as int) =~= v@);
    r
}

/// Dropping files that are not the log of today leaves no more than there was.
proof fn lemma_filter_total(v: Seq<LogEntry>, p: spec_fn(LogEntry) -> bool)
    ensures
        total_size(v.filter(p)) <= total_size(v),
    decreases v.len(),
{
    reveal(Seq::filter);
    if v.len() > 0 {
        lemma_filter_total(v.drop_last(), p);
        if p(v.last()) {
            assert(v.filter(p) =~= v.drop_last().filter(p).push(v.last()));
            assert(v.filter(p).drop_last() =~= v.drop_last().filter(p));
        } else {
            assert(v.filter(p) =~= v.drop_last().filter(p));
        }
    }
}

/// All entries but the log of today, the oldest first.
fn sorted_candidates(v: &Vec<LogEntry>, today: &str) -> (c: Vec<LogEntry>)
    ensures
        is_candidates(c@, v@, today@),
        total_size(c@) <= total_size(v@),
{
    let ghost keep = |e: LogEntry| !e.dated(today@);
    let mut c: Vec<LogEntry> = Vec::new();
    let mut i: usize = 0;
    proof {
        reveal(Seq::filter);
        assert(v@.take(0) =~= Seq::<LogEntry>::empty());
        assert(v@.take(0).filter(keep) =~= c@);
    }
    while i < v.len()
        invariant
            i <= v@.len(),
            keep == (|e: LogEntry| !e.dated(today@)),
            oldest_first(c@),
            c@.to_multiset() == v@.take(i as int).filter(keep).to_multiset(),
            total_size(c@) == total_size(v@.take(i as int).filter(keep)),
        decreases v@.len() - i,
    {
        proof {
            assert(v@.take(i + 1) =~= v@.take(i as int).push(v@[i as int]));
            v@.take(i as int).lemma_filter_push(v@[i as int], keep);
        }
        if !v[i].is_today(today) {
            let e: LogEntry = v[i].clone();
            // The first position whose file is younger.
            let mut k: usize = 0;
            while k < c.len() && !older_than(&e, &c[k])
                invariant
                    k <= c@.len(),
                    forall|j: int| 0 <= j < k ==> !older(e, #[trigger] c@[j]),
                decreases c@.len() - k,
            {
                k += 1;
            }
            let ghost c0 = c@;
            let ghost f0 = v@.take(i as int).filter(keep);
            c.insert(k, e);
            proof {
                broadcast use vstd::seq_lib::group_to_multiset_ensures;

                c0.insert_ensures(k as int, e);
                lemma_total_size_insert(c0, k as int, e);
                assert(f0.push(e).drop_last() =~= f0);
                assert forall|a: int, b: int| 0 <= a < b < c@.len() implies !older(
                    #[trigger] c@[b],
                    #[trigger] c@[a],
                ) by {
                    let a0 = if a < k { a } else { a - 1 };
                    let b0 = if b < k { b } else { b - 1 };
                    if a == k {
                        assert(c@[b] == c0[b0]);
                        assert(older(e, c0[k as int]));
                        if older(c0[b0], e) {
                            lemma_older_weak(e, c0[b0], c0[k as int]);
                            if older(e, c0[b0]) {
                                lemma_older_asymmetric(e, c0[b0]);
                            } else if b0 > k {
                                assert(!older(c0[b0], c0[k as int]));
                            } else {
                                lemma_older_irreflexive(c0[k as int]);
                            }
                        }
                    } else if b == k {
                        assert(c@[a] == c0[a]);
                    } else {
                        assert(c@[a] == c0[a0]);
                        assert(c@[b] == c0[b0]);
                        assert(!older(c0[b0], c0[a0]));
                    }
                }
            }
        }
        i += 1;
    }
    proof {
        assert(v@.take(v@.len() as int) =~= v@);
        lemma_filter_total(v@, keep);
    }
    c
}

proof fn lemma_older_asymmetric(a: LogEntry, b: LogEntry)
    requires
        older(a, b),
    ensures
        !older(b, a),
{
    if older(b, a) {
        let x = text::opt_text(a.date_suffix);
        let y = text::opt_text(b.date_suffix);
        if x is Some && y is Some {
            if x->0 != y->0 {
                text::lemma_text_before_transitive(x->0, y->0, x->0);
            } else if text::text_before(a.name@, b.name@) && text::text_before(b.name@, a.name@) {
                text::lemma_text_before_transitive(a.name@, b.name@, a.name@);
                text::lemma_text_before_irreflexive(a.name@);
            }
            text::lemma_text_before_irreflexive(x->0);
        } else {
            if text::text_before(a.name@, b.name@) && text::text_before(b.name@, a.name@) {
                text::lemma_text_before_transitive(a.name@, b.name@, a.name@);
            }
            text::lemma_text_before_irreflexive(a.name@);
        }
    }
}

/// Whether `s` is how pruning starts: with the files that may be deleted, and
/// with none where nothing is to be pruned.
pub open spec fn is_prune_start(
    s: PruneState,
    entries: Seq<LogEntry>,
    today: Seq<char>,
    cap_bytes: u64,
) -> bool {
    &&& s.cap_bytes == cap_bytes
    &&& s.position == 0
    &&& s.pruned == 0
    &&& s.total == total_size(entries)
    &&& prunes(entries, today, cap_bytes) ==> is_candidates(s.candidates, entries, today)
    &&& !prunes(entries, today, cap_bytes) ==> s.candidates.len() == 0
}

impl PruneRun {
    /// The invariant of a run, see [`prune_valid`].
    pub open spec fn wf(&self) -> bool {
        prune_valid(self@)
    }

    /// Start to prune the log directory that holds `entries`, on the day
    /// `today`.
    pub fn start(entries: &Vec<LogEntry>, today: &str, cap_bytes: u64) -> (r: PruneRun)
        ensures
            r.wf(),
            is_prune_start(r@, entries@, today@, cap_bytes),
    {
        let total: u128 = sum_sizes(entries);
        let mut prune: bool = total > cap_bytes as u128;
        let mut i: usize = 0;
        while i < entries.len()
            invariant
                i <= entries@.len(),
                total == total_size(entries@),
                prune == (total > cap_bytes && forall|j: int|
                    0 <= j < i && (#[trigger] entries@[j]).dated(today@) ==> entries@[j].size
                        <= cap_bytes),
            decreases entries@.len() - i,
        {
            if entries[i].is_today(today) && entries[i].size > cap_bytes {
                prune = false;
            }
            i += 1;
        }
        let candidates: Vec<LogEntry> = if prune {
            sorted_candidates(entries, today)
        } else {
            Vec::new()
        };
        assert(candidates@.skip(0) =~= candidates@);
        PruneRun { candidates, position: 0, total, cap_bytes, pruned: 0 }
    }

    /// Start to prune the log directory that holds `entries` on the present day.
    /// Which day that is depends on the clock and the time zone.
    pub fn start_today(entries: &Vec<LogEntry>, cap_bytes: u64) -> (r: PruneRun)
        ensures
            r.wf(),
            exists|day: CalendarDay|
                1 <= day.month <= 12 && 1 <= day.day <= 31 && is_prune_start(
                    r@,
                    entries@,
                    #[trigger] clock::dashed_date(day),
                    cap_bytes,
                ),
    {
        let day: CalendarDay = today();
        let r: PruneRun = PruneRun::start(entries, &dashed_date_text(day), cap_bytes);
        assert(is_prune_start(r@, entries@, clock::dashed_date(day), cap_bytes));
        r
    }

    /// The path of the file to delete next; `None` when pruning is done.
    pub fn next(&self) -> (r: Option<String>)
        requires
            self.wf(),
        ensures
            match prune_next(self@) {
                Some(e) => r == Some(e.path),
                None => r is None,
            },
    {
        if self.total > self.cap_bytes as u128 && self.position < self.candidates.len() {
            Some(self.candidates[self.position].path.clone())
        } else {
            None
        }
    }

    /// Take in whether the file was deleted. A file that could not be deleted
    /// is passed over.
    pub fn report(&mut self, deleted: bool)
        requires
            old(self).wf(),
        ensures
            final(self).wf(),
            final(self)@ == prune_step(old(self)@, deleted),
    {
        if self.total > self.cap_bytes as u128 && self.position < self.candidates.len() {
            let size: u64 = self.candidates[self.position].size;
            proof {
                let rest = self.candidates@.skip(self.position as int);
                let tail = self.candidates@.skip(self.position + 1);
                assert(rest =~= seq![rest[0]] + tail);
                lemma_total_size_add(seq![rest[0]], tail);
                assert(seq![rest[0]].drop_last() =~= Seq::<LogEntry>::empty());
                assert(total_size(seq![rest[0]]) == total_size(Seq::<LogEntry>::empty()) + size);
                assert(total_size(Seq::<LogEntry>::empty()) == 0);
            }
            if deleted {
                self.total = self.total - size as u128;
                self.pruned = self.pruned + 1;
            }
            self.position = self.position + 1;
        }
    }

    /// How many files were deleted, and the size of what is left.
    pub fn outcome(&self) -> (r: (usize, u128))
        ensures
            r.0 == self@.pruned,
            r.1 == self@.total,
    {
        (self.pruned, self.total)
    }
}

// ── Laws ────────────────────────────────────────────────────────────────────

/// The log of today is never deleted.
pub proof fn law_today_is_never_deleted(
    s: PruneState,
    entries: Seq<LogEntry>,
    today: Seq<char>,
    cap_bytes: u64,
    i: int,
)
    requires
        is_prune_start(s, entries, today, cap_bytes),
        0 <= i < s.candidates.len(),
    ensures
        !s.candidates[i].dated(today),
{
    broadcast use vstd::seq_lib::group_to_multiset_ensures;

    let p = |e: LogEntry| !e.dated(today);
    let f = entries.filter(p);
    assert(s.candidates.to_multiset().count(s.candidates[i]) > 0) by {
        assert(s.candidates.contains(s.candidates[i]));
    }
    assert(f.to_multiset().count(s.candidates[i]) > 0);
    assert(f.contains(s.candidates[i]));
    let k = choose|k: int| 0 <= k < f.len() && f[k] == s.candidates[i];
    entries.lemma_filter_pred(p, k);
}

/// A directory within its budget is left alone, and so is one whose log of
/// today is over budget by itself.
pub proof fn law_nothing_is_deleted_without_need(
    s: PruneState,
    entries: Seq<LogEntry>,
    today: Seq<char>,
    cap_bytes: u64,
)
    requires
        is_prune_start(s, entries, today, cap_bytes),
        total_size(entries) <= cap_bytes || exists|i: int|
            0 <= i < entries.len() && (#[trigger] entries[i]).dated(today) && entries[i].size
                > cap_bytes,
    ensures
        prune_next(s) is None,
{
}

/// Files are deleted the oldest first: what is tried is not younger than any
/// file that was not tried yet.
pub proof fn law_oldest_goes_first(s: PruneState, j: int)
    requires
        prune_valid(s),
        oldest_first(s.candidates),
        prune_next(s) is Some,
        s.position < j < s.candidates.len(),
    ensures
        !older(s.candidates[j], prune_next(s)->0),
{
}

/// Pruning ends, and when it ends the directory is within its budget or no
/// file is left that may be deleted.
pub proof fn law_pruning_reaches_the_budget(s: PruneState, deleted: bool)
    requires
        prune_valid(s),
    ensures
        prune_next(s) is None ==> s.total <= s.cap_bytes || s.position == s.candidates.len(),
        prune_next(s) is Some ==> prune_step(s, deleted).position == s.position + 1,
        prune_next(s) is Some && deleted ==> prune_step(s, deleted).total == s.total - prune_next(
            s,
        )->0.size,
{
}

/// The log of the program and its dated ones are logs, and nothing else is.
pub proof fn law_logs_are_told_by_their_names(name: Seq<char>, tail: Seq<char>)
    ensures
        log_name("immichsync.log"@),
        log_name("immichsync.log."@ + tail),
        log_name(name) ==> name == "immichsync.log"@ || "immichsync.log."@.is_prefix_of(name),
{
    let v = "immichsync.log."@ + tail;
    assert(v.take("immichsync.log."@.len() as int) =~= "immichsync.log."@);
}

/// The day of a log is what follows the dot, where that is four digits, two and
/// two, with hyphens between them.
pub proof fn law_day_of_a_log_is_read(name: Seq<char>, day: Seq<char>, i: int)
    ensures
        date_shaped(day) ==> date_of("immichsync.log."@ + day) == Some(day),
        !date_shaped(day) ==> date_of("immichsync.log."@ + day) is None,
        !"immichsync.log."@.is_prefix_of(name) ==> date_of(name) is None,
        date_shaped(day) ==> day.len() == 10 && day[4] == '-' && day[7] == '-',
        date_shaped(day) && 0 <= i < 10 && i != 4 && i != 7 ==> '0' <= day[i] <= '9',
{
    text::law_prefix_is_removed(day, "immichsync.log."@);
    text::law_prefix_is_removed(name, "immichsync.log."@);
    if date_shaped(day) {
        assert(day[4] == '-' && day[7] == '-');
        if 0 <= i < 10 && i != 4 && i != 7 {
            assert(text::is_digit(day[i]));
        }
    }
}

/// Of two dated logs the one of the earlier day is older; a dated one is older
/// than one without a date; and two without go by the time at which they were
/// changed.
pub proof fn law_age_of_logs(a: LogEntry, b: LogEntry)
    ensures
        ({
            let x = text::opt_text(a.date_suffix);
            let y = text::opt_text(b.date_suffix);
            &&& x is Some && y is Some && text::text_before(x->0, y->0) ==> older(a, b)
            &&& x is Some && y is None ==> older(a, b) && !older(b, a)
            &&& x is None && y is None && a.mtime.secs < b.mtime.secs ==> older(a, b)
            &&& x is None && y is None && a.mtime.secs == b.mtime.secs && a.mtime.nanos
                < b.mtime.nanos ==> older(a, b)
            &&& x == y && a.mtime == b.mtime ==> (older(a, b) <==> text::text_before(
                a.name@,
                b.name@,
            ))
            &&& older(a, b) ==> !older(b, a)
        }),
{
    if older(a, b) {
        lemma_older_asymmetric(a, b);
    }
    if text::opt_text(a.date_suffix) is Some {
        text::lemma_text_before_irreflexive(text::opt_text(a.date_suffix)->0);
    }
}

/// The size of the logs is that of each of them, added up.
pub proof fn law_sizes_add_up(v: Seq<LogEntry>, e: LogEntry)
    ensures
        total_size(Seq::empty()) == 0,
        total_size(v.push(e)) == total_size(v) + e.size,
{
    assert(v.push(e).drop_last() =~= v);
}

/// Logs are pruned where together they are larger than the budget, unless today's
/// alone is.
pub proof fn law_logs_are_pruned_above_the_budget(v: Seq<LogEntry>, today: Seq<char>, cap: u64)
    ensures
        total_size(v) <= cap ==> !prunes(v, today, cap),
        total_size(v) > cap && (forall|i: int|
            0 <= i < v.len() && text::opt_text((#[trigger] v[i]).date_suffix) == Some(today)
                ==> v[i].size <= cap) ==> prunes(v, today, cap),
        (exists|i: int|
            0 <= i < v.len() && text::opt_text((#[trigger] v[i]).date_suffix) == Some(today)
                && v[i].size > cap) ==> !prunes(v, today, cap),
{
    if exists|i: int|
        0 <= i < v.len() && text::opt_text((#[trigger] v[i]).date_suffix) == Some(today)
            && v[i].size > cap {
        let i = choose|i: int|
            0 <= i < v.len() && text::opt_text((#[trigger] v[i]).date_suffix) == Some(today)
                && v[i].size > cap;
        assert(v[i].dated(today));
    }
}

/// Every log but today's may be deleted, the oldest first, and nothing that is no
/// log of the list.
pub proof fn law_all_but_today_may_go(
    c: Seq<LogEntry>,
    v: Seq<LogEntry>,
    today: Seq<char>,
    e: LogEntry,
)
    requires
        is_candidates(c, v, today),
    ensures
        c.contains(e) <==> v.contains(e) && !e.dated(today),
        forall|i: int, j: int| 0 <= i < j < c.len() ==> !older(#[trigger] c[j], #[trigger] c[i]),
{
    let keep = |e: LogEntry| !e.dated(today);
    text::lemma_filter_keeps(v, keep, e);
    c.to_multiset_ensures();
    v.filter(keep).to_multiset_ensures();
    assert(c.contains(e) <==> c.to_multiset().count(e) > 0);
    assert(v.filter(keep).contains(e) <==> v.filter(keep).to_multiset().count(e) > 0);
}

/// The next log goes while what is left is larger than the budget. One that was
/// deleted no longer counts, one that could not be still does, and the next one
/// follows either way.
pub proof fn law_pruning_goes_on_above_the_budget(s: PruneState, deleted: bool)
    requires
        prune_valid(s),
    ensures
        s.total > s.cap_bytes && s.position < s.candidates.len() ==> prune_next(s) == Some(
            s.candidates[s.position as int],
        ),
        s.total <= s.cap_bytes || s.position >= s.candidates.len() ==> prune_next(s) is None
            && prune_step(s, deleted) == s,
        prune_next(s) is Some ==> {
            let n = prune_step(s, deleted);
            &&& n.candidates == s.candidates && n.cap_bytes == s.cap_bytes
            &&& n.position == s.position + 1
            &&& deleted ==> n.total == s.total - s.candidates[s.position as int].size && n.pruned
                == s.pruned + 1
            &&& !deleted ==> n.total == s.total && n.pruned == s.pruned
        },
{
}

/// A run begins with the size of all logs and nothing done.
pub proof fn law_pruning_begins_with_all_logs(
    s: PruneState,
    entries: Seq<LogEntry>,
    today: Seq<char>,
    cap_bytes: u64,
)
    requires
        is_prune_start(s, entries, today, cap_bytes),
    ensures
        s.total == total_size(entries),
        s.cap_bytes == cap_bytes,
        s.position == 0 && s.pruned == 0,
        prunes(entries, today, cap_bytes) ==> is_candidates(s.candidates, entries, today),
        !prunes(entries, today, cap_bytes) ==> s.candidates.len() == 0,
{
}

} // verus!
