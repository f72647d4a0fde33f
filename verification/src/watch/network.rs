//! Watching a network folder: natively where the share reports changes, by
//! polling where it does not.
//!
//! A file is written into the folder to see whether the native watcher reports
//! it. The same file is written now and then to see whether the watcher is
//! still alive.

use vstd::prelude::*;

use crate::paths;
use crate::paths::child_path;
use crate::text;
use crate::text::{concat3, str_eq};
use crate::watch::engine::EngineHealth;
use crate::watch::folder::{ChangeKind, DEBOUNCE_WINDOW_MS};

verus! {

broadcast use vstd::seq::group_seq_axioms;

/// Milliseconds that the native watcher has to report the test file.
pub const HEALTH_CHECK_TIMEOUT_MS: u64 = 5000;

/// Milliseconds by which the test of a polling watcher may be late.
pub const POLL_PROBE_HEADROOM_MS: u64 = 5000;

/// The file by which a watcher is tested.
pub const PROBE_FILENAME: &'static str = ".immichsync-probe";

/// Milliseconds for a native watcher to report its test file.
pub const PROBE_TIMEOUT_MS: u64 = 10_000;

/// What the test file holds.
pub const PROBE_CONTENT: &'static str = "immichsync";

/// How a network folder is watched.
#[derive(Debug, Clone, Copy, PartialEq, Eq, Structural)]
pub enum WatchMode {
    Native,
    Poll,
}

/// How a watcher is tested.
#[derive(Debug)]
pub struct ProbeSettings {
    /// The name of the test file.
    pub file_name: String,
    /// Milliseconds that a native watcher has to report it.
    pub timeout_ms: u64,
}

/// What came of writing the test file.
#[derive(Debug, Clone, Copy, PartialEq, Eq, Structural)]
pub enum HealthCheck {
    /// The test file could not be written.
    NotWritten,
    /// The native watcher reported the file.
    Reported,
    /// The native watcher did not report the file in time.
    Silent,
}

/// The mode that a check leads to: native only where the watcher was seen to
/// work.
pub open spec fn mode_after(check: HealthCheck) -> WatchMode {
    if check is Reported {
        WatchMode::Native
    } else {
        WatchMode::Poll
    }
}

/// The mode that a check leads to.
pub fn choose_mode(check: HealthCheck) -> (r: WatchMode)
    ensures
        r == mode_after(check),
{
    match check {
        HealthCheck::Reported => WatchMode::Native,
        _ => WatchMode::Poll,
    }
}

/// Whether an event reports the test file `probe`.
pub open spec fn reports_probe(kind: ChangeKind, event_paths: Seq<Seq<char>>, probe: Seq<char>) -> bool {
    kind !is Other && exists|i: int|
        0 <= i < event_paths.len() && paths::path_file_name(#[trigger] event_paths[i]) == Some(
            probe,
        )
}

/// Whether an event reports the test file `probe`.
pub fn probe_reported(kind: ChangeKind, event_paths: &Vec<String>, probe: &str) -> (r: bool)
    ensures
        r == reports_probe(kind, text::texts(event_paths@), probe@),
{
    match kind {
        ChangeKind::Other => {
            return false;
        },
        _ => {},
    }
    let ghost all = text::texts(event_paths@);
    let mut i: usize = 0;
    while i < event_paths.len()
        invariant
            i <= event_paths@.len(),
            all == text::texts(event_paths@),
            kind !is Other,
            forall|j: int|
                0 <= j < i ==> paths::path_file_name(#[trigger] all[j]) != Some(probe@),
        decreases event_paths@.len() - i,
    {
        assert(all[i as int] == event_paths@[i as int]@);
        if let Some(name) = paths::file_name(&event_paths[i]) {
            if str_eq(&name, probe) {
                return true;
            }
        }
        i += 1;
    }
    false
}

/// How a watcher does, given what its test has shown: it works where it reported
/// the test file, is degraded where it did not, and has failed where the file
/// could not be written.
pub fn health_after(shown: &Result<bool, String>) -> (r: EngineHealth)
    ensures
        r == (match *shown {
            Ok(true) => EngineHealth::Healthy,
            Ok(false) => EngineHealth::Degraded,
            Err(_) => EngineHealth::Failed,
        }),
{
    match shown {
        Ok(true) => EngineHealth::Healthy,
        Ok(false) => EngineHealth::Degraded,
        Err(_) => EngineHealth::Failed,
    }
}

/// What a test of a watcher says. `written` is what came of writing the test
/// file, `acknowledged` whether the watcher reported it in time.
pub fn probe_outcome(probe_path: &str, written: Result<(), String>, acknowledged: bool) -> (r:
    Result<bool, String>)
    ensures
        match written {
            Ok(_) => r == Ok::<bool, String>(acknowledged),
            Err(e) => r matches Err(m) && m@ == "Probe write to "@ + paths::path_quoted(probe_path@)
                + " failed: "@ + e@,
        },
{
    match written {
        Ok(_) => Ok(acknowledged),
        Err(e) => {
            let mut m: String = concat3("Probe write to ", &paths::quoted(probe_path), " failed: ");
            m.append(&e);
            Err(m)
        },
    }
}

/// A watcher of a network folder.
#[derive(Debug)]
pub struct NetworkWatcher {
    path: String,
    poll_interval_ms: u64,
    probe: ProbeSettings,
    mode: Option<WatchMode>,
}

/// The contents of a [`NetworkWatcher`].
#[verifier::ext_equal]
pub struct NetworkModel {
    pub path: Seq<char>,
    pub poll_interval_ms: u64,
    pub probe_name: Seq<char>,
    pub probe_timeout_ms: u64,
    /// How the folder is watched; nothing where it is not.
    pub mode: Option<WatchMode>,
}

impl View for NetworkWatcher {
    type V = NetworkModel;

    closed spec fn view(&self) -> NetworkModel {
        NetworkModel {
            path: self.path@,
            poll_interval_ms: self.poll_interval_ms,
            probe_name: self.probe.file_name@,
            probe_timeout_ms: self.probe.timeout_ms,
            mode: self.mode,
        }
    }
}

impl NetworkWatcher {
    /// A watcher that has not been started.
    pub fn new(path: &str, poll_interval_ms: u64, probe: ProbeSettings) -> (r: NetworkWatcher)
        ensures
            r@ == (NetworkModel {
                path: path@,
                poll_interval_ms,
                probe_name: probe.file_name@,
                probe_timeout_ms: probe.timeout_ms,
                mode: None,
            }),
    {
        NetworkWatcher { path: path.to_owned(), poll_interval_ms, probe, mode: None }
    }

    /// Note that the watcher was started after a check. `started` is what came
    /// of starting it in the mode that [`choose_mode`] gives.
    pub fn start(&mut self, check: HealthCheck, started: Result<(), String>) -> (r: Result<
        (),
        String,
    >)
        ensures
            r == started,
            final(self)@ == (NetworkModel {
                mode: if started is Ok {
                    Some(mode_after(check))
                } else {
                    old(self)@.mode
                },
                ..old(self)@
            }),
    {
        if started.is_ok() {
            self.mode = Some(choose_mode(check));
        }
        started
    }

    /// How the folder is watched; `None` where it is not.
    pub fn mode(&self) -> (r: Option<WatchMode>)
        ensures
            r == self@.mode,
    {
        self.mode
    }

    /// Milliseconds that the watcher has to report the test file. A polling
    /// watcher needs its interval and the time for which events are gathered.
    pub fn probe_timeout(&self) -> (r: u64)
        requires
            self@.poll_interval_ms + DEBOUNCE_WINDOW_MS + POLL_PROBE_HEADROOM_MS <= u64::MAX,
        ensures
            r == (if self@.mode == Some(WatchMode::Poll) {
                self@.poll_interval_ms + DEBOUNCE_WINDOW_MS + POLL_PROBE_HEADROOM_MS
            } else {
                self@.probe_timeout_ms as int
            }),
    {
        match self.mode {
            Some(WatchMode::Poll) => self.poll_interval_ms + DEBOUNCE_WINDOW_MS
                + POLL_PROBE_HEADROOM_MS,
            _ => self.probe.timeout_ms,
        }
    }

    /// The path of the test file.
    pub fn probe_path(&self) -> (r: String)
        ensures
            r@ == paths::child(self@.path, self@.probe_name),
    {
        child_path(&self.path, &self.probe.file_name)
    }

    /// Note that the watcher was stopped.
    pub fn stop(&mut self)
        ensures
            final(self)@ == (NetworkModel { mode: None, ..old(self)@ }),
    {
        self.mode = None;
    }

    /// The folder that is watched.
    pub fn path(&self) -> (r: &str)
        ensures
            r@ == self@.path,
    {
        self.path.as_str()
    }
}

// ── Laws ────────────────────────────────────────────────────────────────────

/// A folder is watched natively only where a native watcher was seen to report
/// the test file.
pub proof fn law_native_watching_is_tried_first(check: HealthCheck)
    ensures
        mode_after(check) is Native <==> check is Reported,
        !(check is Reported) ==> mode_after(check) is Poll,
{
}

/// The test file counts as reported by any event of its creation or change that
/// names it, among whatever other paths, and by no other event.
pub proof fn law_probe_is_found_among_paths(
    kind: ChangeKind,
    event_paths: Seq<Seq<char>>,
    probe: Seq<char>,
    i: int,
)
    ensures
        !(kind is Other) && 0 <= i < event_paths.len() && paths::path_file_name(event_paths[i])
            == Some(probe) ==> reports_probe(kind, event_paths, probe),
        kind is Other ==> !reports_probe(kind, event_paths, probe),
        (forall|k: int|
            0 <= k < event_paths.len() ==> paths::path_file_name(#[trigger] event_paths[k]) != Some(
                probe,
            )) ==> !reports_probe(kind, event_paths, probe),
{
}

} // verus!
