//! Watching a folder: which events matter, and when a file counts as written.
//!
//! A file that was created or changed is looked at until it stops growing and
//! can be opened; only then it is handed to the upload queue. The check is a
//! state machine: [`WriteCheck::action`] says what to find out next,
//! [`WriteCheck::resume`] takes the answer.

use vstd::prelude::*;

use crate::paths;
use crate::text::{concat2, str_eq};
use crate::watch::filter;
use crate::watch::filter::{FileFacts, FileFilter};

verus! {

broadcast use vstd::seq::group_seq_axioms;

/// What a watcher reports.
#[derive(Debug)]
pub enum WatchEvent {
    /// The file is fully written and can be uploaded.
    FileReady(String),
    /// The file went away. Nothing is done about it.
    FileRemoved(String),
    /// Something failed in the watcher; it goes on.
    Error(String),
}

impl Clone for WatchEvent {
    fn clone(&self) -> (r: Self)
        ensures
            r == *self,
    {
        match self {
            WatchEvent::FileReady(p) => WatchEvent::FileReady(p.clone()),
            WatchEvent::FileRemoved(p) => WatchEvent::FileRemoved(p.clone()),
            WatchEvent::Error(m) => WatchEvent::Error(m.clone()),
        }
    }
}

/// Milliseconds for which filesystem events are gathered.
pub const DEBOUNCE_WINDOW_MS: u64 = 2000;

/// Milliseconds between the two looks at the size of a file.
pub const STABILITY_POLL_INTERVAL_MS: u64 = 500;

/// Milliseconds after which a file that keeps changing is given up.
pub const MAX_WRITE_WAIT_MS: u64 = 30000;

// ── Filesystem events ───────────────────────────────────────────────────────

/// What a filesystem event says of its paths.
#[derive(Debug, Clone, Copy, PartialEq, Eq, Structural)]
pub enum ChangeKind {
    Created,
    Modified,
    Other,
}

/// What to do about one path of a filesystem event.
#[derive(Debug, Clone, Copy, PartialEq, Eq, Structural)]
pub enum EventDecision {
    /// Nothing.
    Ignore,
    /// The watcher saw the file that was written to test it.
    ProbeSeen,
    /// See whether the file is written, with a [`WriteCheck`].
    CheckWrite,
}

/// What to do about one path of a filesystem event. `probe` is the name of the
/// file that is written to test the watcher, if it is tested this way; `facts`
/// is what is known of the path, if it is a file.
pub open spec fn event_decision(
    kind: ChangeKind,
    path: Seq<char>,
    probe: Option<Seq<char>>,
    is_file: bool,
    rules: filter::FilterRules,
    facts: Option<FileFacts>,
) -> EventDecision {
    if kind is Other {
        EventDecision::Ignore
    } else if probe is Some && paths::path_file_name(path) == probe {
        EventDecision::ProbeSeen
    } else if is_file && filter::included(rules, path, facts) {
        EventDecision::CheckWrite
    } else {
        EventDecision::Ignore
    }
}

/// Whether a path ends in the name `probe`.
fn is_probe(path: &str, probe: Option<&str>) -> (r: bool)
    ensures
        r == (probe is Some && paths::path_file_name(path@) == probe.deep_view()),
{
    match probe {
        None => false,
        Some(name) => match paths::file_name(path) {
            Some(n) => str_eq(&n, name),
            None => false,
        },
    }
}

/// What to do about one path of a filesystem event.
pub fn decide_event(
    kind: ChangeKind,
    path: &str,
    probe: Option<&str>,
    is_file: bool,
    filter: &FileFilter,
    facts: Option<FileFacts>,
) -> (r: EventDecision)
    ensures
        r == event_decision(kind, path@, probe.deep_view(), is_file, filter@, facts),
{
    match kind {
        ChangeKind::Other => EventDecision::Ignore,
        _ => {
            if is_probe(path, probe) {
                EventDecision::ProbeSeen
            } else if is_file && filter.should_include(path, facts) {
                EventDecision::CheckWrite
            } else {
                EventDecision::Ignore
            }
        },
    }
}

// ── Write completion ────────────────────────────────────────────────────────

/// Where a check stands.
#[derive(Debug, Clone, Copy, PartialEq, Eq, Structural)]
pub enum CheckPhase {
    /// About to see how long the check has taken.
    Timing,
    /// About to look at the size for the first time.
    FirstLook,
    /// Waiting between the two looks.
    Settling { size: u64 },
    /// About to look at the size for the second time.
    SecondLook { size: u64 },
    /// The size is stable; about to open the file.
    Opening,
    /// Waiting before the next attempt.
    BackingOff,
    /// The file is written and readable.
    Ready,
    /// The file is gone.
    Gone,
    /// The check took too long.
    TimedOut,
}

/// What a check needs to know next.
#[derive(Debug, Clone, Copy, PartialEq, Eq, Structural)]
pub enum CheckAction {
    /// How long the check has taken.
    MeasureTime,
    /// The size of the file.
    ReadSize,
    /// Nothing; wait this long.
    Wait { ms: u64 },
    /// Whether the file can be opened for reading.
    OpenFile,
    /// The check is over.
    Finish,
}

/// What a check was told.
#[derive(Debug, Clone, Copy, PartialEq, Eq, Structural)]
pub enum CheckEvent {
    /// The check has taken this long.
    Elapsed { ms: u64 },
    /// The size of the file; `None` where it cannot be told.
    Size(Option<u64>),
    /// The wait is over.
    Waited,
    /// Whether the file could be opened.
    Opened(bool),
}

/// The state of a check: where it stands, and how long it waits before the next
/// attempt.
#[derive(Debug, Clone, Copy, PartialEq, Eq, Structural)]
pub struct CheckState {
    pub phase: CheckPhase,
    pub backoff_ms: u64,
}

/// The state in which a check begins.
pub open spec fn check_start() -> CheckState {
    CheckState { phase: CheckPhase::Timing, backoff_ms: STABILITY_POLL_INTERVAL_MS }
}

/// A wait, doubled; at most the longest that a check may take.
pub open spec fn doubled(ms: u64) -> u64 {
    if 2 * ms <= MAX_WRITE_WAIT_MS {
        (2 * ms) as u64
    } else {
        MAX_WRITE_WAIT_MS
    }
}

/// The action that is due.
pub open spec fn check_action(s: CheckState) -> CheckAction {
    match s.phase {
        CheckPhase::Timing => CheckAction::MeasureTime,
        CheckPhase::FirstLook => CheckAction::ReadSize,
        CheckPhase::Settling { size } => CheckAction::Wait { ms: STABILITY_POLL_INTERVAL_MS },
        CheckPhase::SecondLook { size } => CheckAction::ReadSize,
        CheckPhase::Opening => CheckAction::OpenFile,
        CheckPhase::BackingOff => CheckAction::Wait { ms: s.backoff_ms },
        _ => CheckAction::Finish,
    }
}

/// The state after an answer; one that does not fit changes nothing.
pub open spec fn check_step(s: CheckState, e: CheckEvent) -> CheckState {
    let to = |phase: CheckPhase| (CheckState { phase, ..s });
    match (s.phase, e) {
        (CheckPhase::Timing, CheckEvent::Elapsed { ms }) => if ms >= MAX_WRITE_WAIT_MS {
            to(CheckPhase::TimedOut)
        } else {
            to(CheckPhase::FirstLook)
        },
        (CheckPhase::FirstLook, CheckEvent::Size(Some(size))) => to(CheckPhase::Settling { size }),
        (CheckPhase::FirstLook, CheckEvent::Size(None)) => to(CheckPhase::Gone),
        (CheckPhase::Settling { size }, CheckEvent::Waited) => to(CheckPhase::SecondLook { size }),
        (CheckPhase::SecondLook { size }, CheckEvent::Size(Some(again))) => if again == size {
            to(CheckPhase::Opening)
        } else {
            to(CheckPhase::BackingOff)
        },
        (CheckPhase::SecondLook { size }, CheckEvent::Size(None)) => to(CheckPhase::Gone),
        (CheckPhase::Opening, CheckEvent::Opened(true)) => to(CheckPhase::Ready),
        (CheckPhase::Opening, CheckEvent::Opened(false)) => to(CheckPhase::BackingOff),
        (CheckPhase::BackingOff, CheckEvent::Waited) => CheckState {
            phase: CheckPhase::Timing,
            backoff_ms: doubled(s.backoff_ms),
        },
        _ => s,
    }
}

/// What a check of the file `path` reports, once it is over.
pub open spec fn check_report(path: Seq<char>, s: CheckState) -> Option<(bool, Seq<char>)> {
    match s.phase {
        CheckPhase::Ready => Some((true, path)),
        CheckPhase::TimedOut => Some(
            (false, "Write-completion timeout: "@ + paths::path_quoted(path)),
        ),
        _ => None,
    }
}

/// What an event says: whether a file is ready, and the path or the message.
pub open spec fn event_text(e: Option<WatchEvent>) -> Option<(bool, Seq<char>)> {
    match e {
        Some(WatchEvent::FileReady(p)) => Some((true, p@)),
        Some(WatchEvent::Error(m)) => Some((false, m@)),
        _ => None,
    }
}

/// A check of whether a file is fully written.
pub struct WriteCheck {
    path: String,
    state: CheckState,
}

impl WriteCheck {
    /// The file that is checked.
    pub closed spec fn file(&self) -> Seq<char> {
        self.path@
    }

    /// The state of the check.
    pub closed spec fn at(&self) -> CheckState {
        self.state
    }

    /// Begin to check a file.
    pub fn start(path: &str) -> (r: WriteCheck)
        ensures
            r.file() == path@,
            r.at() == check_start(),
    {
        WriteCheck {
            path: path.to_owned(),
            state: CheckState {
                phase: CheckPhase::Timing,
                backoff_ms: STABILITY_POLL_INTERVAL_MS,
            },
        }
    }

    /// What the check needs to know next.
    pub fn action(&self) -> (r: CheckAction)
        ensures
            r == check_action(self.at()),
    {
        match self.state.phase {
            CheckPhase::Timing => CheckAction::MeasureTime,
            CheckPhase::FirstLook => CheckAction::ReadSize,
            CheckPhase::Settling { .. } => CheckAction::Wait { ms: STABILITY_POLL_INTERVAL_MS },
            CheckPhase::SecondLook { .. } => CheckAction::ReadSize,
            CheckPhase::Opening => CheckAction::OpenFile,
            CheckPhase::BackingOff => CheckAction::Wait { ms: self.state.backoff_ms },
            _ => CheckAction::Finish,
        }
    }

    /// Take in an answer.
    pub fn resume(&mut self, event: CheckEvent)
        ensures
            final(self).file() == old(self).file(),
            final(self).at() == check_step(old(self).at(), event),
    {
        match (self.state.phase, event) {
            (CheckPhase::Timing, CheckEvent::Elapsed { ms }) => {
                self.state.phase = if ms >= MAX_WRITE_WAIT_MS {
                    CheckPhase::TimedOut
                } else {
                    CheckPhase::FirstLook
                };
            },
            (CheckPhase::FirstLook, CheckEvent::Size(found)) => {
                self.state.phase = match found {
                    Some(size) => CheckPhase::Settling { size },
                    None => CheckPhase::Gone,
                };
            },
            (CheckPhase::Settling { size }, CheckEvent::Waited) => {
                self.state.phase = CheckPhase::SecondLook { size };
            },
            (CheckPhase::SecondLook { size }, CheckEvent::Size(found)) => {
                self.state.phase = match found {
                    Some(again) => {
                        if again == size {
                            CheckPhase::Opening
                        } else {
                            CheckPhase::BackingOff
                        }
                    },
                    None => CheckPhase::Gone,
                };
            },
            (CheckPhase::Opening, CheckEvent::Opened(could)) => {
                self.state.phase = if could {
                    CheckPhase::Ready
                } else {
                    CheckPhase::BackingOff
                };
            },
            (CheckPhase::BackingOff, CheckEvent::Waited) => {
                let ms: u64 = self.state.backoff_ms;
                self.state = CheckState {
                    phase: CheckPhase::Timing,
                    backoff_ms: if ms <= MAX_WRITE_WAIT_MS / 2 {
                        2 * ms
                    } else {
                        MAX_WRITE_WAIT_MS
                    },
                };
            },
            _ => {},
        }
    }

    /// What to report, once the check is over: the file where it is ready, an
    /// error where the check took too long, nothing where the file is gone.
    pub fn report(&self) -> (r: Option<WatchEvent>)
        ensures
            event_text(r) == check_report(self.file(), self.at()),
            r is Some ==> !(r->0 is FileRemoved),
    {
        match self.state.phase {
            CheckPhase::Ready => Some(WatchEvent::FileReady(self.path.clone())),
            CheckPhase::TimedOut => Some(
                WatchEvent::Error(
                    concat2("Write-completion timeout: ", &paths::quoted(&self.path)),
                ),
            ),
            _ => None,
        }
    }
}

// ── Laws ────────────────────────────────────────────────────────────────────

/// The state of a check after some answers.
pub open spec fn check_run(s: CheckState, events: Seq<CheckEvent>) -> CheckState
    decreases events.len(),
{
    if events.len() == 0 {
        s
    } else {
        check_step(check_run(s, events.drop_last()), events.last())
    }
}

/// Whether `size` was the first look's answer that the current attempt of a
/// check rests on, among `events`.
pub open spec fn saw_size(events: Seq<CheckEvent>, size: u64) -> bool {
    exists|i: int|
        0 <= i < events.len() && #[trigger] events[i] == CheckEvent::Size(Some(size)) && check_run(
            check_start(),
            events.take(i),
        ).phase is FirstLook
}

proof fn lemma_size_was_seen(events: Seq<CheckEvent>)
    ensures
        ({
            let s = check_run(check_start(), events);
            &&& s.phase matches CheckPhase::Settling { size } ==> saw_size(events, size)
            &&& s.phase matches CheckPhase::SecondLook { size } ==> saw_size(events, size)
        }),
    decreases events.len(),
{
    if events.len() > 0 {
        let before = events.drop_last();
        let s = check_run(check_start(), before);
        let t = check_run(check_start(), events);
        lemma_size_was_seen(before);
        assert forall|size: u64| saw_size(before, size) implies saw_size(events, size) by {
            let i = choose|i: int|
                0 <= i < before.len() && #[trigger] before[i] == CheckEvent::Size(Some(size))
                    && check_run(check_start(), before.take(i)).phase is FirstLook;
            assert(events[i] == before[i]);
            assert(events.take(i) =~= before.take(i));
        }
        if s.phase is FirstLook && t.phase is Settling {
            let i = events.len() - 1;
            assert(events.take(i) =~= before);
            assert(saw_size(events, t.phase->Settling_size)) by {
                assert(events[i] == CheckEvent::Size(Some(t.phase->Settling_size)));
            }
        }
    }
}

/// A file is reported as ready only after two looks, [`STABILITY_POLL_INTERVAL_MS`]
/// apart, found the same size and the file could then be opened.
pub proof fn law_ready_file_was_stable_and_readable(events: Seq<CheckEvent>)
    requires
        events.len() > 0,
        check_run(check_start(), events).phase is Ready,
        !(check_run(check_start(), events.drop_last()).phase is Ready),
    ensures
        events.last() == CheckEvent::Opened(true),
        exists|k: int, size: u64|
            0 <= k < events.len() && #[trigger] events[k] == CheckEvent::Size(Some(size)) && check_run(
                check_start(),
                events.take(k),
            ).phase == (CheckPhase::SecondLook { size }) && #[trigger] saw_size(events.take(k), size),
{
    let before = events.drop_last();
    assert(check_run(check_start(), before).phase is Opening);
    lemma_opening_follows_equal_looks(before);
    let (k, size) = choose|k: int, size: u64|
        0 <= k < before.len() && #[trigger] before[k] == CheckEvent::Size(Some(size)) && check_run(
            check_start(),
            before.take(k),
        ).phase == (CheckPhase::SecondLook { size }) && #[trigger] saw_size(before.take(k), size);
    assert(events.take(k) =~= before.take(k));
    assert(events[k] == before[k]);
}

proof fn lemma_opening_follows_equal_looks(events: Seq<CheckEvent>)
    requires
        check_run(check_start(), events).phase is Opening,
    ensures
        exists|k: int, size: u64|
            0 <= k < events.len() && #[trigger] events[k] == CheckEvent::Size(Some(size)) && check_run(
                check_start(),
                events.take(k),
            ).phase == (CheckPhase::SecondLook { size }) && #[trigger] saw_size(events.take(k), size),
    decreases events.len(),
{
    let before = events.drop_last();
    let s = check_run(check_start(), before);
    let last = events.len() - 1;
    if s.phase is Opening {
        lemma_opening_follows_equal_looks(before);
        let (k, size) = choose|k: int, size: u64|
            0 <= k < before.len() && #[trigger] before[k] == CheckEvent::Size(Some(size))
                && check_run(check_start(), before.take(k)).phase == (CheckPhase::SecondLook {
                size,
            }) && #[trigger] saw_size(before.take(k), size);
        assert(events.take(k) =~= before.take(k));
        assert(events[k] == before[k]);
    } else {
        assert(s.phase is SecondLook);
        let size = s.phase->SecondLook_size;
        lemma_size_was_seen(before);
        assert(events.take(last) =~= before);
        assert(events[last] == CheckEvent::Size(Some(size)));
        assert(saw_size(events.take(last), size));
    }
}

/// A check waits at least [`STABILITY_POLL_INTERVAL_MS`] and at most
/// [`MAX_WRITE_WAIT_MS`] between two attempts, and twice as long each time until
/// it waits the most.
pub proof fn law_waits_are_bounded(events: Seq<CheckEvent>)
    ensures
        ({
            let s = check_run(check_start(), events);
            &&& STABILITY_POLL_INTERVAL_MS <= s.backoff_ms <= MAX_WRITE_WAIT_MS
            &&& s.phase is BackingOff ==> check_step(s, CheckEvent::Waited).backoff_ms == doubled(
                s.backoff_ms,
            )
        }),
    decreases events.len(),
{
    if events.len() > 0 {
        law_waits_are_bounded(events.drop_last());
    }
}

/// A check that has taken [`MAX_WRITE_WAIT_MS`] ends at the next attempt, with an
/// error.
pub proof fn law_check_times_out(path: Seq<char>, s: CheckState, ms: u64)
    requires
        s.phase is Timing,
        ms >= MAX_WRITE_WAIT_MS,
    ensures
        check_action(check_step(s, CheckEvent::Elapsed { ms })) is Finish,
        check_report(path, check_step(s, CheckEvent::Elapsed { ms })) == Some(
            (false, "Write-completion timeout: "@ + paths::path_quoted(path)),
        ),
{
}

/// What is not included by the filter, and the file that tests the watcher, is
/// never checked for upload.
pub proof fn law_filtered_files_are_not_checked(
    kind: ChangeKind,
    path: Seq<char>,
    probe: Option<Seq<char>>,
    is_file: bool,
    rules: filter::FilterRules,
    facts: Option<FileFacts>,
)
    requires
        !filter::included(rules, path, facts) || (probe is Some && paths::path_file_name(path)
            == probe),
    ensures
        !(event_decision(kind, path, probe, is_file, rules, facts) is CheckWrite),
{
}

/// A file whose size is stable and that opens is reported as ready, however often
/// the check had to wait before.
pub proof fn law_opened_file_is_ready(path: Seq<char>, s: CheckState)
    requires
        check_action(s) is OpenFile,
    ensures
        check_report(path, check_step(s, CheckEvent::Opened(true))) == Some((true, path)),
        check_action(check_step(s, CheckEvent::Opened(true))) is Finish,
{
}

/// A check ends without a report only by a look at the size that finds no file,
/// and every such look ends it so.
pub proof fn law_only_a_missing_file_goes_unreported(path: Seq<char>, s: CheckState, e: CheckEvent)
    ensures
        !(s.phase is Gone) && check_step(s, e).phase is Gone ==> e == CheckEvent::Size(None)
            && check_action(s) is ReadSize,
        check_action(check_step(s, e)) is Finish && check_report(path, check_step(s, e)) is None
            ==> check_step(s, e).phase is Gone,
        check_action(s) is ReadSize ==> check_action(check_step(s, CheckEvent::Size(None))) is Finish
            && check_report(path, check_step(s, CheckEvent::Size(None))) is None,
{
}

/// Whether a look at the size found no file, among the answers of a check.
pub open spec fn found_no_file(events: Seq<CheckEvent>) -> bool {
    exists|i: int|
        0 <= i < events.len() && #[trigger] events[i] == CheckEvent::Size(None) && check_action(
            check_run(check_start(), events.take(i)),
        ) is ReadSize
}

/// A check that is over and reports nothing was told, on a look at the size, that
/// there is no file.
pub proof fn law_unreported_file_was_missing(path: Seq<char>, events: Seq<CheckEvent>)
    requires
        check_action(check_run(check_start(), events)) is Finish,
        check_report(path, check_run(check_start(), events)) is None,
    ensures
        found_no_file(events),
    decreases events.len(),
{
    assert(events.len() > 0);
    let before = events.drop_last();
    let s = check_run(check_start(), before);
    let last = events.len() - 1;
    assert(events.take(last) =~= before);
    if s.phase is Gone {
        law_unreported_file_was_missing(path, before);
        let i = choose|i: int|
            0 <= i < before.len() && #[trigger] before[i] == CheckEvent::Size(None) && check_action(
                check_run(check_start(), before.take(i)),
            ) is ReadSize;
        assert(events.take(i) =~= before.take(i));
        assert(events[i] == before[i]);
    } else {
        assert(events[last] == CheckEvent::Size(None));
    }
}

/// An attempt that began within thirty seconds looks at the size twice, half a
/// second apart. The file is opened where both looks agree; else, and where it
/// does not open, the check waits and begins another attempt, before which it
/// would wait twice as long, thirty seconds at the most.
pub proof fn law_attempt_takes_two_looks(s: CheckState, ms: u64, first: u64, second: u64)
    requires
        check_action(s) is MeasureTime,
        ms < 30000,
    ensures
        ({
            let s1 = check_step(s, CheckEvent::Elapsed { ms });
            let s2 = check_step(s1, CheckEvent::Size(Some(first)));
            let s3 = check_step(s2, CheckEvent::Waited);
            let s4 = check_step(s3, CheckEvent::Size(Some(second)));
            let s5 = if first == second {
                check_step(s4, CheckEvent::Opened(false))
            } else {
                s4
            };
            let s6 = check_step(s5, CheckEvent::Waited);
            &&& check_action(s1) is ReadSize
            &&& check_action(s2) == CheckAction::Wait { ms: 500 }
            &&& check_action(s3) is ReadSize
            &&& first == second ==> check_action(s4) is OpenFile
            &&& check_action(s5) == CheckAction::Wait { ms: s.backoff_ms }
            &&& check_action(s6) is MeasureTime
            &&& s6.backoff_ms == if 2 * s.backoff_ms <= 30000 {
                2 * s.backoff_ms
            } else {
                30000
            }
        }),
{
}

/// A check begins by measuring the time, and would first wait half a second
/// before another attempt.
pub proof fn law_check_begins_at_once(path: Seq<char>)
    ensures
        check_action(check_start()) is MeasureTime,
        check_start().backoff_ms == 500,
        check_report(path, check_start()) is None,
{
}

/// The wait before the next attempt changes only by a wait that was due, and no
/// look, test or measure changes it.
pub proof fn law_backoff_grows_only_by_waiting(s: CheckState, e: CheckEvent)
    ensures
        check_step(s, e).backoff_ms != s.backoff_ms ==> e is Waited && check_action(s) == (
        CheckAction::Wait { ms: s.backoff_ms }) && check_action(check_step(s, e)) is MeasureTime,
{
}

/// An answer that was not asked for changes nothing, and a check that is over
/// stays as it is.
pub proof fn law_check_takes_only_answers(s: CheckState, e: CheckEvent)
    ensures
        !(e is Elapsed) && check_action(s) is MeasureTime ==> check_step(s, e) == s,
        !(e is Size) && check_action(s) is ReadSize ==> check_step(s, e) == s,
        !(e is Waited) && check_action(s) is Wait ==> check_step(s, e) == s,
        !(e is Opened) && check_action(s) is OpenFile ==> check_step(s, e) == s,
        check_action(s) is Finish ==> check_step(s, e) == s,
{
}

/// A check reports that it took too long only where it had taken thirty seconds
/// when an attempt was to begin.
pub proof fn law_check_gives_up_only_after_the_limit(path: Seq<char>, s: CheckState, e: CheckEvent)
    requires
        !(check_action(s) is Finish),
        check_report(path, check_step(s, e)) matches Some((false, _)),
    ensures
        check_action(s) is MeasureTime,
        e matches CheckEvent::Elapsed { ms } && ms >= 30000,
{
}

/// A check reports nothing before it is over.
pub proof fn law_nothing_is_reported_early(path: Seq<char>, s: CheckState)
    ensures
        check_report(path, s) is Some ==> check_action(s) is Finish,
{
}

/// Every file that was created or changed and that the filter includes is
/// checked, but for the one that tests the watcher, which is recognised by its
/// name alone; nothing else is acted on.
pub proof fn law_included_file_is_checked(
    kind: ChangeKind,
    path: Seq<char>,
    probe: Option<Seq<char>>,
    is_file: bool,
    rules: filter::FilterRules,
    facts: Option<FileFacts>,
)
    ensures
        ({
            let d = event_decision(kind, path, probe, is_file, rules, facts);
            let named = probe is Some && paths::path_file_name(path) == probe;
            &&& kind is Other ==> d is Ignore
            &&& !(kind is Other) && named ==> d is ProbeSeen
            &&& !(kind is Other) && !named && is_file && filter::included(rules, path, facts)
                ==> d is CheckWrite
            &&& d is ProbeSeen ==> named
            &&& d is CheckWrite ==> is_file
        }),
{
}

} // verus!
