//! The upload pipeline: the entry point of the rest of the application.
//!
//! It wires the queue (hash, deduplicate, enqueue) to the worker that drains it.

use std::time::Duration;

use vstd::prelude::*;

use crate::clock;
use crate::config::{ServerConfig, UploadConfig};
use crate::text::concat2;
use crate::upload::hasher::HasherError;
use crate::upload::queue;
use crate::upload::queue::{FileStat, QueueError, QueueStats, QueueStore, UploadQueue};
use crate::upload::worker::{UploadWorker, WorkerConfig};

verus! {

/// Why the pipeline refused.
#[derive(Debug)]
pub enum PipelineError {
    NotStarted,
    Queue(QueueError),
    AlreadyRunning,
}

/// The text of a [`PipelineError`].
pub open spec fn pipeline_message(e: PipelineError) -> Seq<char> {
    match e {
        PipelineError::NotStarted => "Pipeline is not started; call start() first"@,
        PipelineError::Queue(q) => "Queue error: "@ + queue::queue_message(q),
        PipelineError::AlreadyRunning => "Worker already running"@,
    }
}

impl PipelineError {
    /// The message shown to the user.
    pub fn message(&self) -> (r: String)
        ensures
            r@ == pipeline_message(*self),
    {
        match self {
            PipelineError::NotStarted => "Pipeline is not started; call start() first".to_owned(),
            PipelineError::Queue(q) => concat2("Queue error: ", &q.message()),
            PipelineError::AlreadyRunning => "Worker already running".to_owned(),
        }
    }
}

/// Seconds to wait for the worker to stop. What it leaves behind is taken up
/// again at the next start.
pub const STOP_TIMEOUT_SECS: u64 = 3;

/// The upload pipeline.
pub struct UploadPipeline<S: QueueStore> {
    pub queue: UploadQueue<S>,
    pub worker: UploadWorker,
    /// Whether the worker loop was started and not stopped.
    pub running: bool,
}

impl<S: QueueStore> UploadPipeline<S> {
    /// A pipeline that was not started.
    pub fn new(store: S, server: &ServerConfig, upload: &UploadConfig) -> (r: Self)
        ensures
            r.queue.store == store,
            r.queue.concurrency == upload.concurrency,
            r.worker.config.concurrency == upload.concurrency,
            r.worker.config.max_retries == upload.max_retries,
            clock::duration_parts(r.worker.config.base_retry_delay) == (1u64, 0u32),
            r.worker.config.device_id == server.device_id,
            !r.worker.paused,
            !r.worker.stopping,
            r.worker.phase is Ready,
            !r.running,
    {
        let config = WorkerConfig {
            concurrency: upload.concurrency as usize,
            max_retries: upload.max_retries,
            base_retry_delay: Duration::from_secs(1),
            device_id: server.device_id.clone(),
        };
        UploadPipeline {
            queue: UploadQueue::new(store, upload.concurrency as usize),
            worker: UploadWorker::new(config),
            running: false,
        }
    }

    /// Start the worker loop. A second start is refused.
    pub fn start(&mut self) -> (r: Result<(), PipelineError>)
        ensures
            match r {
                Ok(_) => !old(self).running,
                Err(e) => e is AlreadyRunning && old(self).running,
            },
            final(self).running,
            final(self).queue == old(self).queue,
            final(self).worker == old(self).worker,
    {
        if self.running {
            return Err(PipelineError::AlreadyRunning);
        }
        self.running = true;
        Ok(())
    }

    /// Queue a file that is new. Returns the id of the new entry, or `None`
    /// where the file was skipped; see [`UploadQueue::process_file`].
    pub fn submit<F: FnOnce() -> Result<String, HasherError>>(
        &mut self,
        path: &str,
        folder_id: Option<i64>,
        stat: Result<FileStat, String>,
        hash_file: F,
    ) -> (r: Result<Option<i64>, PipelineError>)
        requires
            old(self).queue.store.ready(),
            queue::needs_hash(old(self).queue.store.tables(), path@, stat) ==> hash_file.requires(
                (),
            ),
        ensures
            final(self).queue.store.ready(),
            final(self).queue.store.order() == old(self).queue.store.order(),
            final(self).queue.concurrency == old(self).queue.concurrency,
            final(self).worker == old(self).worker,
            final(self).running == old(self).running,
            match r {
                Ok(o) => queue::processed(
                    old(self).queue.store,
                    final(self).queue.store.tables(),
                    path@,
                    folder_id,
                    stat,
                    hash_file,
                    Ok(o),
                ),
                Err(e) => e matches PipelineError::Queue(q) && queue::processed(
                    old(self).queue.store,
                    final(self).queue.store.tables(),
                    path@,
                    folder_id,
                    stat,
                    hash_file,
                    Err(q),
                ),
            },
    {
        match self.queue.process_file(path, folder_id, stat, hash_file) {
            Ok(id) => Ok(id),
            Err(e) => Err(PipelineError::Queue(e)),
        }
    }

    /// Start no more uploads; those under way complete.
    pub fn pause(&mut self)
        ensures
            final(self).worker == (UploadWorker { paused: true, ..old(self).worker }),
            final(self).queue == old(self).queue,
            final(self).running == old(self).running,
    {
        self.worker.pause();
    }

    /// Start uploads again.
    pub fn resume(&mut self)
        ensures
            final(self).worker == (UploadWorker { paused: false, ..old(self).worker }),
            final(self).queue == old(self).queue,
            final(self).running == old(self).running,
    {
        self.worker.resume();
    }

    /// Counts of the queue.
    pub fn stats(&self) -> (r: Result<QueueStats, PipelineError>)
        requires
            self.queue.store.ready(),
        ensures
            match r {
                Ok(s) => queue::counts(s, self.queue.store.tables().queue),
                Err(PipelineError::Queue(QueueError::Store(e))) => self.queue.store.fails(
                    queue::StoreCall::Count,
                    e,
                ),
                Err(_) => false,
            },
    {
        match self.queue.get_stats() {
            Ok(s) => Ok(s),
            Err(e) => Err(PipelineError::Queue(e)),
        }
    }

    /// Tell the worker to stop. Returns whether there is a worker to wait for.
    pub fn stop(&mut self) -> (r: bool)
        ensures
            r == old(self).running,
            !final(self).running,
            final(self).worker == (UploadWorker { stopping: true, ..old(self).worker }),
            final(self).queue == old(self).queue,
    {
        self.worker.stop();
        let was_running: bool = self.running;
        self.running = false;
        was_running
    }
}

/// An error of the queue is told as it is.
pub proof fn law_pipeline_error_ends_with_its_cause(q: QueueError)
    ensures
        pipeline_message(PipelineError::Queue(q)).skip(
            pipeline_message(PipelineError::Queue(q)).len() - queue::queue_message(q).len(),
        ) == queue::queue_message(q),
{
}

} // verus!
