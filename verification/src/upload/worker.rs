//! The upload worker loop, as a state machine.
//!
//! A worker claims pending entries, at most as many at a time as the
//! configuration allows, has them uploaded, and looks again when all are done.
//! It rests when the queue is empty, waits while it is paused, and stops when
//! it is told to.

use std::time::Duration;

use vstd::prelude::*;

use crate::clock;
use crate::config;
use crate::config::default_device_id;
use crate::upload::item::RunConfig;

verus! {

broadcast use vstd::seq::group_seq_axioms;

/// Configuration of the worker.
pub struct WorkerConfig {
    /// Most uploads at a time.
    pub concurrency: usize,
    /// Failures after which an entry is given up.
    pub max_retries: u32,
    /// The wait after the first failure; it doubles with every failure.
    pub base_retry_delay: Duration,
    /// The device id sent with every upload.
    pub device_id: String,
}

impl WorkerConfig {
    /// Whether this is the default configuration of the device `device_id`.
    pub open spec fn is_default_of(self, device_id: Seq<char>) -> bool {
        &&& self.concurrency == 2
        &&& self.max_retries == 5
        &&& clock::duration_parts(self.base_retry_delay) == (1u64, 0u32)
        &&& self.device_id@ == device_id
    }

    /// What the upload of an entry needs to know.
    pub fn run_config(&self) -> (r: RunConfig)
        ensures
            r.max_retries == self.max_retries,
            r.base_retry_delay == self.base_retry_delay,
            r.device_id == self.device_id,
    {
        RunConfig {
            max_retries: self.max_retries,
            base_retry_delay: self.base_retry_delay,
            device_id: self.device_id.clone(),
        }
    }
}

impl Default for WorkerConfig {
    fn default() -> (r: WorkerConfig)
        ensures
            exists|host: Option<Seq<char>>|
                r.is_default_of(#[trigger] config::device_id_of(host)),
    {
        WorkerConfig {
            concurrency: 2,
            max_retries: 5,
            base_retry_delay: Duration::from_secs(1),
            device_id: default_device_id(),
        }
    }
}

/// Seconds to rest after the queue could not be read.
pub const ERROR_REST_SECS: u64 = 5;

/// Seconds to rest when the queue is empty.
pub const EMPTY_REST_SECS: u64 = 2;

/// Where the loop stands.
#[derive(Debug, Clone, Copy, PartialEq, Eq, Structural)]
pub enum LoopPhase {
    /// About to look for entries.
    Ready,
    /// Resting after the queue could not be read.
    RestingAfterError,
    /// Resting because the queue was empty.
    RestingEmpty,
    /// A batch of entries is being uploaded.
    Uploading,
}

/// What the loop does next.
#[derive(Debug, Clone, Copy, PartialEq, Eq, Structural)]
pub enum WorkerAction {
    /// Wait until pausing ends or the worker is told to stop.
    AwaitResume,
    /// Claim up to this many entries.
    Dequeue { limit: usize },
    /// Rest for this many seconds, or until the worker is told to stop.
    Rest { secs: u64 },
    /// Have the claimed entries uploaded, and wait for all of them.
    UploadBatch,
    /// Leave the loop.
    Exit,
}

/// What happened in the loop.
#[derive(Debug, Clone, Copy, PartialEq, Eq, Structural)]
pub enum WorkerEvent {
    /// This many entries were claimed.
    Claimed { count: usize },
    /// The queue could not be read.
    ClaimFailed,
    /// The rest is over.
    Rested,
    /// Every entry of the batch was seen to.
    BatchDone,
}

/// The worker loop.
pub struct UploadWorker {
    pub config: WorkerConfig,
    pub paused: bool,
    pub stopping: bool,
    pub phase: LoopPhase,
}

/// The action that is due. A worker that was told to stop finishes its batch
/// and leaves; one that is paused claims nothing.
pub open spec fn worker_action(w: UploadWorker) -> WorkerAction {
    match w.phase {
        LoopPhase::Uploading => WorkerAction::UploadBatch,
        LoopPhase::Ready => if w.stopping {
            WorkerAction::Exit
        } else if w.paused {
            WorkerAction::AwaitResume
        } else {
            WorkerAction::Dequeue { limit: w.config.concurrency }
        },
        LoopPhase::RestingAfterError => if w.stopping {
            WorkerAction::Exit
        } else {
            WorkerAction::Rest { secs: ERROR_REST_SECS }
        },
        LoopPhase::RestingEmpty => if w.stopping {
            WorkerAction::Exit
        } else {
            WorkerAction::Rest { secs: EMPTY_REST_SECS }
        },
    }
}

/// The phase after an event; one that does not fit changes nothing.
pub open spec fn next_phase(p: LoopPhase, e: WorkerEvent) -> LoopPhase {
    match (p, e) {
        (LoopPhase::Ready, WorkerEvent::Claimed { count }) => if count == 0 {
            LoopPhase::RestingEmpty
        } else {
            LoopPhase::Uploading
        },
        (LoopPhase::Ready, WorkerEvent::ClaimFailed) => LoopPhase::RestingAfterError,
        (LoopPhase::RestingAfterError, WorkerEvent::Rested) => LoopPhase::Ready,
        (LoopPhase::RestingEmpty, WorkerEvent::Rested) => LoopPhase::Ready,
        (LoopPhase::Uploading, WorkerEvent::BatchDone) => LoopPhase::Ready,
        _ => p,
    }
}

impl UploadWorker {
    /// A worker that has not begun.
    pub fn new(config: WorkerConfig) -> (r: UploadWorker)
        ensures
            r.config == config,
            !r.paused,
            !r.stopping,
            r.phase is Ready,
    {
        UploadWorker { config, paused: false, stopping: false, phase: LoopPhase::Ready }
    }

    /// Tell the worker to stop after its current batch.
    pub fn stop(&mut self)
        ensures
            *final(self) == (UploadWorker { stopping: true, ..*old(self) }),
    {
        self.stopping = true;
    }

    /// Claim no more entries.
    pub fn pause(&mut self)
        ensures
            *final(self) == (UploadWorker { paused: true, ..*old(self) }),
    {
        self.paused = true;
    }

    /// Claim entries again.
    pub fn resume(&mut self)
        ensures
            *final(self) == (UploadWorker { paused: false, ..*old(self) }),
    {
        self.paused = false;
    }

    /// The action that is due.
    pub fn action(&self) -> (r: WorkerAction)
        ensures
            r == worker_action(*self),
    {
        match self.phase {
            LoopPhase::Uploading => WorkerAction::UploadBatch,
            LoopPhase::Ready => {
                if self.stopping {
                    WorkerAction::Exit
                } else if self.paused {
                    WorkerAction::AwaitResume
                } else {
                    WorkerAction::Dequeue { limit: self.config.concurrency }
                }
            },
            LoopPhase::RestingAfterError => {
                if self.stopping {
                    WorkerAction::Exit
                } else {
                    WorkerAction::Rest { secs: ERROR_REST_SECS }
                }
            },
            LoopPhase::RestingEmpty => {
                if self.stopping {
                    WorkerAction::Exit
                } else {
                    WorkerAction::Rest { secs: EMPTY_REST_SECS }
                }
            },
        }
    }

    /// Take in what happened. An event that does not fit changes nothing.
    pub fn on_event(&mut self, event: WorkerEvent)
        ensures
            *final(self) == (UploadWorker {
                phase: next_phase(old(self).phase, event),
                ..*old(self)
            }),
    {
        match (self.phase, event) {
            (LoopPhase::Ready, WorkerEvent::Claimed { count }) => {
                self.phase = if count == 0 {
                    LoopPhase::RestingEmpty
                } else {
                    LoopPhase::Uploading
                };
            },
            (LoopPhase::Ready, WorkerEvent::ClaimFailed) => {
                self.phase = LoopPhase::RestingAfterError;
            },
            (LoopPhase::RestingAfterError, WorkerEvent::Rested) => {
                self.phase = LoopPhase::Ready;
            },
            (LoopPhase::RestingEmpty, WorkerEvent::Rested) => {
                self.phase = LoopPhase::Ready;
            },
            (LoopPhase::Uploading, WorkerEvent::BatchDone) => {
                self.phase = LoopPhase::Ready;
            },
            _ => {},
        }
    }
}

/// A paused worker, and one that was told to stop, claims no entry.
pub proof fn law_no_claim_while_paused_or_stopping(w: UploadWorker)
    requires
        w.paused || w.stopping,
    ensures
        !(worker_action(w) is Dequeue),
{
}

/// A worker that was told to stop leaves the loop as soon as no batch is under
/// way, whatever happened before.
pub proof fn law_stop_takes_effect(w: UploadWorker, e: WorkerEvent)
    requires
        w.stopping,
    ensures
        w.phase !is Uploading ==> worker_action(w) is Exit,
        w.phase is Uploading ==> worker_action(
            (UploadWorker { phase: next_phase(w.phase, WorkerEvent::BatchDone), ..w }),
        ) is Exit,
{
}

/// A worker claims at most as many entries as it may upload at a time, and
/// claims again only after the whole batch was seen to.
pub proof fn law_concurrency_is_bounded(w: UploadWorker, e: WorkerEvent)
    ensures
        worker_action(w) matches WorkerAction::Dequeue { limit } ==> limit == w.config.concurrency,
        w.phase is Uploading && e !is BatchDone ==> worker_action(
            (UploadWorker { phase: next_phase(w.phase, e), ..w }),
        ) is UploadBatch,
{
}

/// A worker that is neither paused nor told to stop looks for entries; one that is
/// paused waits, and one that is told to stop leaves, unless entries are being
/// uploaded.
pub proof fn law_worker_looks_for_entries(w: UploadWorker)
    requires
        w.phase is Ready,
    ensures
        !w.stopping && !w.paused ==> worker_action(w) == (WorkerAction::Dequeue {
            limit: w.config.concurrency,
        }),
        !w.stopping && w.paused ==> worker_action(w) is AwaitResume,
        w.stopping ==> worker_action(w) is Exit,
{
}

/// Claimed entries are uploaded, whatever else is asked of the worker meanwhile;
/// an empty queue means two seconds' rest, and one that cannot be read five; and
/// after each of these the worker looks for entries again.
pub proof fn law_claims_are_seen_to(w: UploadWorker, count: usize)
    requires
        w.phase is Ready,
    ensures
        ({
            let to = |e: WorkerEvent| (UploadWorker { phase: next_phase(w.phase, e), ..w });
            let on = |e: WorkerEvent, f: WorkerEvent| next_phase(next_phase(w.phase, e), f);
            &&& count > 0 ==> worker_action(to(WorkerEvent::Claimed { count })) is UploadBatch
            &&& !w.stopping ==> worker_action(to(WorkerEvent::Claimed { count: 0 }))
                == WorkerAction::Rest { secs: 2 }
            &&& !w.stopping ==> worker_action(to(WorkerEvent::ClaimFailed)) == WorkerAction::Rest {
                secs: 5,
            }
            &&& count > 0 ==> on(WorkerEvent::Claimed { count }, WorkerEvent::BatchDone) is Ready
            &&& on(WorkerEvent::Claimed { count: 0 }, WorkerEvent::Rested) is Ready
            &&& on(WorkerEvent::ClaimFailed, WorkerEvent::Rested) is Ready
        }),
{
}

/// An event that does not belong to what the worker does changes nothing.
pub proof fn law_worker_takes_only_what_is_due(p: LoopPhase, e: WorkerEvent)
    ensures
        p is Ready && (e is Rested || e is BatchDone) ==> next_phase(p, e) == p,
        (p is RestingAfterError || p is RestingEmpty) && !(e is Rested) ==> next_phase(p, e) == p,
        p is Uploading && !(e is BatchDone) ==> next_phase(p, e) == p,
{
}

/// By default a worker uploads two files at a time and gives an entry up after
/// five failures.
pub proof fn law_default_worker(c: WorkerConfig, device_id: Seq<char>)
    requires
        c.is_default_of(device_id),
    ensures
        c.concurrency == 2,
        c.max_retries == 5,
        clock::duration_parts(c.base_retry_delay) == (1u64, 0u32),
        c.device_id@ == device_id,
{
}

} // verus!
