//! The watch engine: which folders are being watched.
//!
//! The engine keeps the register of watchers. Whoever runs it starts and stops
//! the watchers themselves. Paths are canonical where the filesystem can say
//! so.

use vstd::prelude::*;

use crate::paths;
use crate::paths::same_path;
use crate::text;
use crate::text::{concat2, concat3};

verus! {

broadcast use vstd::seq::group_seq_axioms;

/// Seconds between two polls of a network folder.
pub const DEFAULT_POLL_INTERVAL_SECS: u64 = 30;

/// Events that may wait to be taken in.
pub const EVENT_CHANNEL_CAPACITY: usize = 1024;

/// Why the engine refused.
#[derive(Debug)]
pub enum WatchError {
    /// The path is already being watched.
    AlreadyWatching(String),
    /// The path is not being watched.
    NotWatching(String),
    /// The watcher could not be started.
    StartFailed { path: String, detail: String },
}

/// The text of a [`WatchError`].
pub open spec fn watch_message(e: WatchError) -> Seq<char> {
    match e {
        WatchError::AlreadyWatching(path) => "Path is already being watched: "@
            + paths::path_quoted(path@),
        WatchError::NotWatching(path) => "Path is not being watched: "@ + paths::path_quoted(path@),
        WatchError::StartFailed { path, detail } => "Failed to start watcher for "@
            + paths::path_quoted(path@) + ": "@ + detail@,
    }
}

impl WatchError {
    /// The message shown to the user.
    pub fn message(&self) -> (r: String)
        ensures
            r@ == watch_message(*self),
    {
        match self {
            WatchError::AlreadyWatching(path) => concat2(
                "Path is already being watched: ",
                &paths::quoted(path),
            ),
            WatchError::NotWatching(path) => concat2(
                "Path is not being watched: ",
                &paths::quoted(path),
            ),
            WatchError::StartFailed { path, detail } => {
                let mut r: String = concat3(
                    "Failed to start watcher for ",
                    &paths::quoted(path),
                    ": ",
                );
                r.append(detail);
                r
            },
        }
    }
}

/// How the watchers are doing.
#[derive(Debug, Clone, Copy, PartialEq, Eq, Structural)]
pub enum EngineHealth {
    /// Every watcher works.
    Healthy,
    /// Some watcher is being restarted.
    Degraded,
    /// Some watcher has given up.
    Failed,
}

/// A running watcher.
#[derive(Debug)]
pub struct Watcher {
    pub path: String,
    pub is_network: bool,
    pub health: EngineHealth,
}

/// The contents of a [`Watcher`].
#[verifier::ext_equal]
pub struct WatcherRow {
    pub path: Seq<char>,
    pub is_network: bool,
    pub health: EngineHealth,
}

impl WatcherRow {
    /// What tells the path of the watcher apart.
    pub open spec fn key(self) -> Seq<Seq<char>> {
        paths::path_key(self.path)
    }
}

impl View for Watcher {
    type V = WatcherRow;

    open spec fn view(&self) -> WatcherRow {
        WatcherRow { path: self.path@, is_network: self.is_network, health: self.health }
    }
}

/// The register of watchers.
pub struct WatchEngine {
    watchers: Vec<Watcher>,
    receiver_taken: bool,
}

/// The contents of a [`WatchEngine`].
#[verifier::ext_equal]
pub struct EngineModel {
    /// The running watchers, in the order in which they were added.
    pub watchers: Seq<WatcherRow>,
    /// Whether someone takes in the events.
    pub receiver_taken: bool,
}

impl View for WatchEngine {
    type V = EngineModel;

    closed spec fn view(&self) -> EngineModel {
        EngineModel {
            watchers: self.watchers@.map_values(|w: Watcher| w@),
            receiver_taken: self.receiver_taken,
        }
    }
}

impl EngineModel {
    /// Whether a path is being watched.
    pub open spec fn watches(self, path: Seq<char>) -> bool {
        exists|i: int| 0 <= i < self.watchers.len() && (#[trigger] self.watchers[i]).key()
            == paths::path_key(path)
    }

    /// No path is watched twice.
    pub open spec fn valid(self) -> bool {
        forall|i: int, j: int|
            0 <= i < j < self.watchers.len() ==> (#[trigger] self.watchers[i]).key() != (#[trigger] self.watchers[j]).key()
    }

    /// The worst health of any watcher.
    pub open spec fn health(self) -> EngineHealth {
        if exists|i: int|
            0 <= i < self.watchers.len() && (#[trigger] self.watchers[i]).health is Failed {
            EngineHealth::Failed
        } else if exists|i: int|
            0 <= i < self.watchers.len() && (#[trigger] self.watchers[i]).health is Degraded {
            EngineHealth::Degraded
        } else {
            EngineHealth::Healthy
        }
    }
}

/// The path under which a folder is registered: its canonical path, where the
/// filesystem can give it.
pub open spec fn registered_key(path: Seq<char>, canonical: Option<Seq<char>>) -> Seq<char> {
    match canonical {
        Some(c) => c,
        None => path,
    }
}

/// The register after a watcher for `key` was added.
pub open spec fn after_add(e: EngineModel, key: Seq<char>, is_network: bool) -> EngineModel {
    EngineModel {
        watchers: e.watchers.push(
            WatcherRow { path: key, is_network, health: EngineHealth::Healthy },
        ),
        ..e
    }
}

/// The register after the watcher of `key` was removed.
pub open spec fn after_remove(e: EngineModel, key: Seq<char>) -> EngineModel {
    EngineModel { watchers: e.watchers.filter(|w: WatcherRow| w.key() != paths::path_key(key)), ..e }
}

/// The path under which a folder is watched: the given one, or else the
/// canonical one.
pub open spec fn watched_key(
    e: EngineModel,
    path: Seq<char>,
    canonical: Option<Seq<char>>,
) -> Option<Seq<char>> {
    if e.watches(path) {
        Some(path)
    } else if canonical is Some && e.watches(canonical->0) {
        canonical
    } else {
        None
    }
}

impl WatchEngine {
    /// The invariant of the register, see [`EngineModel::valid`].
    pub open spec fn wf(&self) -> bool {
        self@.valid()
    }

    /// An engine without watchers.
    pub fn new() -> (r: WatchEngine)
        ensures
            r.wf(),
            r@ == (EngineModel { watchers: Seq::empty(), receiver_taken: false }),
    {
        let r: WatchEngine = WatchEngine { watchers: Vec::new(), receiver_taken: false };
        assert(r@ =~= (EngineModel { watchers: Seq::empty(), receiver_taken: false }));
        r
    }

    /// Take the events in from now on. Only the first call succeeds.
    pub fn event_receiver(&mut self) -> (r: bool)
        ensures
            r == !old(self)@.receiver_taken,
            final(self)@ == (EngineModel { receiver_taken: true, ..old(self)@ }),
    {
        let first: bool = !self.receiver_taken;
        self.receiver_taken = true;
        first
    }

    fn position(&self, path: &str) -> (r: Option<usize>)
        ensures
            match r {
                Some(k) => k < self@.watchers.len() && self@.watchers[k as int].key()
                    == paths::path_key(path@),
                None => !self@.watches(path@),
            },
    {
        let mut i: usize = 0;
        while i < self.watchers.len()
            invariant
                i <= self.watchers@.len(),
                forall|j: int| 0 <= j < i ==> (#[trigger] self@.watchers[j]).key()
                    != paths::path_key(path@),
            decreases self.watchers@.len() - i,
        {
            assert(self@.watchers[i as int] == self.watchers@[i as int]@);
            if same_path(&self.watchers[i].path, path) {
                return Some(i);
            }
            i += 1;
        }
        None
    }

    /// Whether a watcher for this folder would be refused. To be asked before
    /// the watcher is started; the answer is the path to start it on.
    pub fn check_free(&self, path: &str, canonical: Option<&str>) -> (r: Result<
        String,
        WatchError,
    >)
        ensures
            match r {
                Ok(key) => key@ == registered_key(path@, canonical.deep_view()) && !self@.watches(
                    key@,
                ),
                Err(WatchError::AlreadyWatching(p)) => p@ == registered_key(
                    path@,
                    canonical.deep_view(),
                ) && self@.watches(p@),
                Err(_) => false,
            },
    {
        let key: String = match canonical {
            Some(c) => c.to_owned(),
            None => path.to_owned(),
        };
        match self.position(&key) {
            Some(_) => Err(WatchError::AlreadyWatching(key)),
            None => Ok(key),
        }
    }

    /// Register a watcher. `start` is what came of starting it on the folder.
    pub fn add_folder(
        &mut self,
        path: &str,
        canonical: Option<&str>,
        is_network: bool,
        start: Result<(), String>,
    ) -> (r: Result<(), WatchError>)
        requires
            old(self).wf(),
        ensures
            final(self).wf(),
            ({
                let key = registered_key(path@, canonical.deep_view());
                match r {
                    Ok(_) => {
                        &&& !old(self)@.watches(key)
                        &&& start is Ok
                        &&& final(self)@ == after_add(old(self)@, key, is_network)
                    },
                    Err(WatchError::AlreadyWatching(p)) => {
                        &&& old(self)@.watches(key)
                        &&& p@ == key
                        &&& final(self)@ == old(self)@
                    },
                    Err(WatchError::StartFailed { path: p, detail }) => {
                        &&& !old(self)@.watches(key)
                        &&& p@ == key
                        &&& start == Err::<(), String>(detail)
                        &&& final(self)@ == old(self)@
                    },
                    Err(WatchError::NotWatching(_)) => false,
                }
            }),
    {
        let key: String = match self.check_free(path, canonical) {
            Ok(k) => k,
            Err(e) => {
                return Err(e);
            },
        };
        match start {
            Err(detail) => Err(WatchError::StartFailed { path: key, detail }),
            Ok(_) => {
                let ghost k = key@;
                self.watchers.push(Watcher { path: key, is_network, health: EngineHealth::Healthy });
                proof {
                    let m = old(self)@;
                    assert(self@.watchers =~= after_add(m, k, is_network).watchers);
                    assert forall|i: int, j: int| 0 <= i < j < self@.watchers.len() implies (
                    #[trigger] self@.watchers[i]).key() != (#[trigger] self@.watchers[j]).key() by {
                        assert(self@.watchers[i] == m.watchers[i]);
                        if j < m.watchers.len() {
                            assert(self@.watchers[j] == m.watchers[j]);
                        }
                    }
                }
                Ok(())
            },
        }
    }

    /// Remove a folder, named by its path or its canonical path. Returns the
    /// path of the watcher to stop.
    pub fn remove_folder(&mut self, path: &str, canonical: Option<&str>) -> (r: Result<
        String,
        WatchError,
    >)
        requires
            old(self).wf(),
        ensures
            final(self).wf(),
            match watched_key(old(self)@, path@, canonical.deep_view()) {
                Some(key) => {
                    &&& r matches Ok(k) && paths::same_components(k@, key) && exists|i: int|
                        0 <= i < old(self)@.watchers.len() && (
                        #[trigger] old(self)@.watchers[i]).path == k@
                    &&& !final(self)@.watches(key)
                    &&& final(self)@ == after_remove(old(self)@, key)
                },
                None => {
                    &&& r matches Err(WatchError::NotWatching(p)) && p@ == path@
                    &&& final(self)@ == old(self)@
                },
            },
    {
        let k: usize = match self.position(path) {
            Some(k) => k,
            None => match canonical {
                Some(c) => match self.position(c) {
                    Some(k) => k,
                    None => {
                        return Err(WatchError::NotWatching(path.to_owned()));
                    },
                },
                None => {
                    return Err(WatchError::NotWatching(path.to_owned()));
                },
            },
        };
        let ghost m = self@;
        let w: Watcher = self.watchers.remove(k);
        proof {
            let key = w@.path;
            assert(m.watchers[k as int] == w@);
            assert(self@.watchers =~= m.watchers.remove(k as int));
            lemma_filter_is_remove(m, k as int);
            assert(self@ =~= after_remove(m, key));
            assert forall|i: int, j: int| 0 <= i < j < self@.watchers.len() implies (
            #[trigger] self@.watchers[i]).key() != (#[trigger] self@.watchers[j]).key() by {
                let a = if i < k { i } else { i + 1 };
                let b = if j < k { j } else { j + 1 };
                assert(m.watchers[a].key() != m.watchers[b].key());
            }
            assert(!self@.watches(key)) by {
                assert forall|i: int| 0 <= i < self@.watchers.len() implies (
                #[trigger] self@.watchers[i]).key() != paths::path_key(key) by {
                    let a = if i < k { i } else { i + 1 };
                    assert(self@.watchers[i] == m.watchers[a]);
                    if a < k {
                        assert(m.watchers[a].key() != m.watchers[k as int].key());
                    } else {
                        assert(m.watchers[k as int].key() != m.watchers[a].key());
                    }
                }
            }
        }
        Ok(w.path)
    }

    /// Forget all watchers. Returns their paths; they are to be stopped.
    pub fn stop_all(&mut self) -> (r: Vec<String>)
        ensures
            final(self).wf(),
            final(self)@ == (EngineModel { watchers: Seq::empty(), ..old(self)@ }),
            text::texts(r@) == old(self)@.watchers.map_values(|w: WatcherRow| w.path),
    {
        let r: Vec<String> = self.watched_paths();
        self.watchers = Vec::new();
        assert(self@ =~= (EngineModel { watchers: Seq::empty(), ..old(self)@ }));
        r
    }

    /// The number of watchers.
    pub fn watcher_count(&self) -> (r: usize)
        ensures
            r == self@.watchers.len(),
    {
        self.watchers.len()
    }

    /// The paths that are being watched.
    pub fn watched_paths(&self) -> (r: Vec<String>)
        ensures
            text::texts(r@) == self@.watchers.map_values(|w: WatcherRow| w.path),
    {
        let mut r: Vec<String> = Vec::new();
        let ghost all = self@.watchers.map_values(|w: WatcherRow| w.path);
        let mut i: usize = 0;
        while i < self.watchers.len()
            invariant
                i <= self.watchers@.len(),
                all == self@.watchers.map_values(|w: WatcherRow| w.path),
                text::texts(r@) =~= all.take(i as int),
            decreases self.watchers@.len() - i,
        {
            assert(self@.watchers[i as int] == self.watchers@[i as int]@);
            assert(all.take(i + 1) =~= all.take(i as int).push(all[i as int]));
            let ghost before = r@;
            r.push(self.watchers[i].path.clone());
            assert(text::texts(r@) =~= text::texts(before).push(r@.last()@));
            i += 1;
        }
        assert(all.take(all.len() as int) =~= all);
        r
    }

    /// Whether a folder is being watched, under its path or its canonical path.
    pub fn is_watching(&self, path: &str, canonical: Option<&str>) -> (r: bool)
        ensures
            r == watched_key(self@, path@, canonical.deep_view()) is Some,
    {
        if self.position(path).is_some() {
            return true;
        }
        match canonical {
            Some(c) => self.position(c).is_some(),
            None => false,
        }
    }

    /// Note how the watcher of a path is doing.
    pub fn set_health(&mut self, path: &str, health: EngineHealth)
        requires
            old(self).wf(),
        ensures
            final(self).wf(),
            final(self)@ == (EngineModel {
                watchers: old(self)@.watchers.map_values(
                    |w: WatcherRow|
                        if w.key() == paths::path_key(path@) {
                            (WatcherRow { health, ..w })
                        } else {
                            w
                        },
                ),
                ..old(self)@
            }),
    {
        let ghost m = self@;
        let ghost g = |w: WatcherRow|
            if w.key() == paths::path_key(path@) {
                (WatcherRow { health, ..w })
            } else {
                w
            };
        match self.position(path) {
            None => {
                assert(m.watchers.map_values(g) =~= m.watchers);
            },
            Some(k) => {
                let w: Watcher = Watcher {
                    path: self.watchers[k].path.clone(),
                    is_network: self.watchers[k].is_network,
                    health,
                };
                let ghost row = w@;
                self.watchers.set(k, w);
                proof {
                    assert(self@.watchers =~= m.watchers.update(k as int, row));
                    assert forall|i: int| 0 <= i < m.watchers.len() implies #[trigger] m.watchers.map_values(
                    g)[i] == m.watchers.update(k as int, row)[i] by {
                        if i < k {
                            assert(m.watchers[i].key() != m.watchers[k as int].key());
                        } else if k < i {
                            assert(m.watchers[k as int].key() != m.watchers[i].key());
                        }
                    }
                    assert(self@.watchers =~= m.watchers.map_values(g));
                    assert forall|i: int, j: int| 0 <= i < j < self@.watchers.len() implies (
                    #[trigger] self@.watchers[i]).key() != (#[trigger] self@.watchers[j]).key() by {
                        assert(self@.watchers[i].path == m.watchers[i].path);
                        assert(self@.watchers[j].path == m.watchers[j].path);
                    }
                }
            },
        }
    }

    /// How the watchers are doing: the worst health of any.
    pub fn health(&self) -> (r: EngineHealth)
        ensures
            r == self@.health(),
    {
        let mut failed: bool = false;
        let mut degraded: bool = false;
        let mut i: usize = 0;
        while i < self.watchers.len()
            invariant
                i <= self.watchers@.len(),
                failed == exists|j: int|
                    0 <= j < i && (#[trigger] self@.watchers[j]).health is Failed,
                degraded == exists|j: int|
                    0 <= j < i && (#[trigger] self@.watchers[j]).health is Degraded,
            decreases self.watchers@.len() - i,
        {
            assert(self@.watchers[i as int] == self.watchers@[i as int]@);
            match self.watchers[i].health {
                EngineHealth::Failed => {
                    failed = true;
                },
                EngineHealth::Degraded => {
                    degraded = true;
                },
                EngineHealth::Healthy => {},
            }
            i += 1;
        }
        if failed {
            EngineHealth::Failed
        } else if degraded {
            EngineHealth::Degraded
        } else {
            EngineHealth::Healthy
        }
    }
}

/// In a valid register, leaving out the path of watcher `k` leaves out that
/// watcher only.
proof fn lemma_filter_is_remove(m: EngineModel, k: int)
    requires
        m.valid(),
        0 <= k < m.watchers.len(),
    ensures
        after_remove(m, m.watchers[k].path).watchers == m.watchers.remove(k),
{
    let key = m.watchers[k].path;
    let p = |w: WatcherRow| w.key() != paths::path_key(key);
    let a = m.watchers.take(k);
    let b = m.watchers.skip(k + 1);
    let one = seq![m.watchers[k]];
    assert(m.watchers =~= (a + one) + b);
    Seq::filter_distributes_over_add(a + one, b, p);
    Seq::filter_distributes_over_add(a, one, p);
    assert forall|i: int| 0 <= i < m.watchers.len() && i != k implies (#[trigger] m.watchers[i]).key()
        != paths::path_key(key) by {
        if i < k {
            assert(m.watchers[i].key() != m.watchers[k].key());
        } else {
            assert(m.watchers[k].key() != m.watchers[i].key());
        }
    }
    assert(one.filter(p) =~= Seq::<WatcherRow>::empty()) by {
        reveal_with_fuel(Seq::filter, 2);
    }
    crate::db::lemma_filter_all(a, p);
    crate::db::lemma_filter_all(b, p);
    assert(m.watchers.remove(k) =~= a + b);
}

/// A folder that was added is being watched, and removing it restores the
/// register as it was.
pub proof fn law_add_then_remove(e: EngineModel, key: Seq<char>, is_network: bool)
    requires
        e.valid(),
        !e.watches(key),
    ensures
        after_add(e, key, is_network).valid(),
        after_add(e, key, is_network).watches(key),
        after_remove(after_add(e, key, is_network), key) == e,
{
    let a = after_add(e, key, is_network);
    let n = e.watchers.len() as int;
    assert(a.valid()) by {
        assert forall|i: int, j: int| 0 <= i < j < a.watchers.len() implies (
        #[trigger] a.watchers[i]).key() != (#[trigger] a.watchers[j]).key() by {
            assert(a.watchers[i] == e.watchers[i]);
            if j < n {
                assert(a.watchers[j] == e.watchers[j]);
            }
        }
    }
    assert(a.watchers[n].path == key);
    assert(after_remove(a, key) =~= e) by {
        lemma_filter_is_remove(a, n);
        assert(a.watchers.remove(n) =~= e.watchers);
    }
}

/// Removing a folder leaves every other folder watched.
pub proof fn law_remove_keeps_the_others(e: EngineModel, key: Seq<char>, other: Seq<char>)
    requires
        e.valid(),
        !paths::same_components(key, other),
    ensures
        after_remove(e, key).watches(other) == e.watches(other),
        !after_remove(e, key).watches(key),
{
    let p = |w: WatcherRow| w.key() != paths::path_key(key);
    let f = e.watchers.filter(p);
    if e.watches(other) {
        let i = choose|i: int|
            0 <= i < e.watchers.len() && (#[trigger] e.watchers[i]).key()
                == paths::path_key(other);
        e.watchers.lemma_filter_contains(p, i);
        let j = choose|j: int| 0 <= j < f.len() && f[j] == e.watchers[i];
        assert(after_remove(e, key).watchers[j].key() == paths::path_key(other));
    }
    assert forall|i: int| 0 <= i < f.len() implies p(#[trigger] f[i]) && e.watchers.contains(
        f[i],
    ) by {
        e.watchers.lemma_filter_pred(p, i);
        e.watchers.lemma_filter_contains_rev(p, f[i]);
    }
    if after_remove(e, key).watches(other) {
        let i = choose|i: int| 0 <= i < f.len() && (#[trigger] f[i]).key() == paths::path_key(
            other,
        );
        let j = choose|j: int| 0 <= j < e.watchers.len() && e.watchers[j] == f[i];
        assert(e.watchers[j].key() == paths::path_key(other));
    }
}

/// A folder is watched under the canonical form of its path, where there is one.
pub proof fn law_canonical_path_counts(path: Seq<char>, canonical: Seq<char>)
    ensures
        registered_key(path, Some(canonical)) == canonical,
        registered_key(path, None) == path,
{
}

/// Adding a watcher leaves the others as they are; the new one is healthy, and
/// stands last.
pub proof fn law_new_watcher_is_healthy(e: EngineModel, key: Seq<char>, is_network: bool)
    ensures
        ({
            let a = after_add(e, key, is_network);
            &&& a.receiver_taken == e.receiver_taken
            &&& a.watchers.len() == e.watchers.len() + 1
            &&& a.watchers.drop_last() == e.watchers
            &&& a.watchers.last().path == key
            &&& a.watchers.last().is_network == is_network
            &&& a.watchers.last().health is Healthy
        }),
{
    assert(after_add(e, key, is_network).watchers.drop_last() =~= e.watchers);
}

/// Removing a watcher leaves just the ones for other paths, as they are.
pub proof fn law_other_watchers_stay(e: EngineModel, key: Seq<char>, w: WatcherRow)
    ensures
        after_remove(e, key).watchers.contains(w) <==> e.watchers.contains(w)
            && !paths::same_components(w.path, key),
        after_remove(e, key).receiver_taken == e.receiver_taken,
{
    text::lemma_filter_keeps(
        e.watchers,
        |w: WatcherRow| w.key() != paths::path_key(key),
        w,
    );
}

/// One watcher that has given up means failure, else one that is being restarted
/// means a reduced service; only where there is neither, all is well.
pub proof fn law_worst_watcher_sets_the_health(e: EngineModel, i: int)
    requires
        0 <= i < e.watchers.len(),
    ensures
        e.watchers[i].health is Failed ==> e.health() is Failed,
        e.watchers[i].health is Degraded ==> !(e.health() is Healthy),
        e.health() is Healthy ==> e.watchers[i].health is Healthy,
        e.health() is Failed ==> exists|k: int|
            0 <= k < e.watchers.len() && (#[trigger] e.watchers[k]).health is Failed,
        e.health() is Degraded ==> exists|k: int|
            0 <= k < e.watchers.len() && (#[trigger] e.watchers[k]).health is Degraded,
{
}

/// Without watchers all is well.
pub proof fn law_idle_engine_is_healthy(e: EngineModel)
    requires
        e.watchers.len() == 0,
    ensures
        e.health() is Healthy,
{
}

/// A folder is found under the path that is asked for, else under its canonical
/// form, and not found only where neither is watched.
pub proof fn law_watcher_is_found_by_either_path(
    e: EngineModel,
    path: Seq<char>,
    canonical: Option<Seq<char>>,
)
    ensures
        e.watches(path) ==> watched_key(e, path, canonical) == Some(path),
        !e.watches(path) ==> (canonical matches Some(c) ==> e.watches(c) ==> watched_key(
            e,
            path,
            canonical,
        ) == Some(c)),
        watched_key(e, path, canonical) is None <==> !e.watches(path) && !(canonical matches Some(
            c,
        ) && e.watches(c)),
{
}

/// A path is watched where a watcher is there for it.
pub proof fn law_watched_path_has_a_watcher(e: EngineModel, path: Seq<char>)
    ensures
        e.watches(path) <==> exists|i: int|
            0 <= i < e.watchers.len() && paths::same_components(
                (#[trigger] e.watchers[i]).path,
                path,
            ),
{
    if e.watches(path) {
        let i = choose|i: int|
            0 <= i < e.watchers.len() && (#[trigger] e.watchers[i]).key() == paths::path_key(path);
        assert(paths::same_components(e.watchers[i].path, path));
    }
    if exists|i: int|
        0 <= i < e.watchers.len() && paths::same_components((#[trigger] e.watchers[i]).path, path) {
        let i = choose|i: int|
            0 <= i < e.watchers.len() && paths::same_components(
                (#[trigger] e.watchers[i]).path,
                path,
            );
        assert(e.watchers[i].key() == paths::path_key(path));
    }
}

/// An error of watching names the path, or ends with what went wrong.
pub proof fn law_watch_error_names_its_path(path: String, detail: String)
    ensures
        watch_message(WatchError::AlreadyWatching(path)).skip(
            watch_message(WatchError::AlreadyWatching(path)).len() - paths::path_quoted(path@).len(),
        ) == paths::path_quoted(path@),
        watch_message(WatchError::NotWatching(path)).skip(
            watch_message(WatchError::NotWatching(path)).len() - paths::path_quoted(path@).len(),
        ) == paths::path_quoted(path@),
        watch_message(WatchError::StartFailed { path, detail }).skip(
            watch_message(WatchError::StartFailed { path, detail }).len() - detail@.len(),
        ) == detail@,
{
}

} // verus!
