//! Hashing, file times, queueing, the upload of an entry and the worker loop.

use std::time::Duration;

use immichsync::api::assets::upload_asset;
use immichsync::api::client::ImmichClient;
use immichsync::clock::Timestamp;
use immichsync::config::{ServerConfig, UploadConfig};
use immichsync::db::{AlbumMode, Database, PostUpload, QueueStatus, WatchMode, WatchedFolder};
use immichsync::db_store::DbStore;
use immichsync::upload::hasher::{hash_bytes, hex, HasherError, StreamHasher};
use immichsync::upload::item::{
    backoff_delay, device_asset_id, resolve_album_name, sha1_of_string, BulkCheckResult,
    ItemAction, ItemEvent, ItemRun, Phase, RunConfig, UploadResult,
};
use immichsync::upload::metadata::{
    extract_metadata, fallback_metadata, parse_exif_datetime, system_time_to_utc, taken_at,
    times_of, try_exif_datetime, FileMetadata, FsTimes, MetadataError, SinceEpoch,
};
use immichsync::upload::pipeline::{PipelineError, UploadPipeline};
use immichsync::upload::queue::{
    canonical_path_for_storage, entry_made, mtime_secs, needs_entry, screened, FileStat,
    NewQueueEntry, QueueEntry, QueueError, QueueStore, Screening, StoreError, UploadQueue,
};
use immichsync::upload::trash::{
    removal_order, should_delete, trash_file, trash_roots, CleanupRun, CleanupStep, FoundEntry,
};
use immichsync::upload::worker::{
    LoopPhase, UploadWorker, WorkerAction, WorkerConfig, WorkerEvent,
};

fn folder(id: i64, path: &str) -> WatchedFolder {
    WatchedFolder {
        id,
        path: path.to_string(),
        label: None,
        enabled: true,
        watch_mode: WatchMode::Native,
        poll_interval_secs: 30,
        album_mode: AlbumMode::NoAlbum,
        album_name: None,
        include_patterns: None,
        exclude_patterns: None,
        post_upload: PostUpload::Keep,
        ignore_online_files: true,
        auto_added: false,
        created_at: "2026-05-26T00:00:00Z".to_string(),
        updated_at: "2026-05-26T00:00:00Z".to_string(),
    }
}

fn store() -> DbStore {
    DbStore::new(Database::new())
}

fn stat(size: u64) -> Result<FileStat, String> {
    Ok(FileStat { size, mtime: 1_700_000_000, online: false })
}

fn meta() -> FileMetadata {
    FileMetadata {
        created_at: Timestamp { secs: 1_686_839_400, nanos: 0 },
        modified_at: Timestamp { secs: 1_700_000_000, nanos: 0 },
    }
}

// Hashing

#[test]
fn empty_file_produces_known_sha1() {
    let hash = StreamHasher::new().finish();
    assert_eq!(hash, "da39a3ee5e6b4b0d3255bfef95601890afd80709");
}

#[test]
fn known_content_produces_correct_hash() {
    let mut h = StreamHasher::new();
    h.update(b"hello world");
    assert_eq!(h.finish(), "2aae6c35c94fcfb415dbe95f408b9ce91ee846ed");
}

#[test]
fn hash_does_not_depend_on_chunks() {
    let mut h = StreamHasher::new();
    h.update(b"hello");
    h.update(b"");
    h.update(b" world");
    assert_eq!(h.finish(), hash_bytes(b"hello world"));
}

#[test]
fn hash_is_lowercase_hex() {
    let mut h = StreamHasher::new();
    h.update(b"ImmichSync test data");
    let hash = h.finish();
    assert_eq!(hash, hash.to_lowercase());
    assert_eq!(hash.len(), 40);
    assert!(hash.chars().all(|c| c.is_ascii_hexdigit()));
}

#[test]
fn bytes_in_hexadecimal() {
    assert_eq!(hex(&[0x00, 0x0f, 0xa5, 0xff]), "000fa5ff");
}

#[test]
fn missing_file_returns_open_error() {
    let mut queue = UploadQueue::new(store(), 2);
    let result = queue.process_file(
        "/nonexistent/path/file.jpg",
        None,
        Err("No such file or directory".to_string()),
        || unreachable!(),
    );
    assert!(result.is_err());
    let err = result.unwrap_err();
    assert!(matches!(err, QueueError::Hash { source: HasherError::Open { .. }, .. }));
}

#[test]
fn hasher_messages() {
    let open = HasherError::Open { path: "a.jpg".to_string(), detail: "gone".to_string() };
    assert_eq!(open.message(), "Failed to open file `a.jpg` for hashing: gone");
    let read = HasherError::Read { path: "a.jpg".to_string(), detail: "torn".to_string() };
    assert_eq!(read.message(), "Failed to read file `a.jpg` while hashing: torn");
}

// File times

#[test]
fn parse_exif_datetime_valid() {
    let dt = parse_exif_datetime("2023:06:15 14:30:00").unwrap();
    let shown = chrono::DateTime::from_timestamp(dt.secs, dt.nanos)
        .unwrap()
        .format("%Y-%m-%d %H:%M:%S")
        .to_string();
    assert_eq!(shown, "2023-06-15 14:30:00");
}

#[test]
fn parse_exif_datetime_invalid_returns_none() {
    assert!(parse_exif_datetime("not a date").is_none());
    assert!(parse_exif_datetime("").is_none());
}

#[test]
fn non_image_file_returns_fs_timestamps() {
    let fs = FsTimes {
        created: Some(SinceEpoch { secs: 1_700_000_000, nanos: 0 }),
        modified: Some(SinceEpoch { secs: 1_700_000_001, nanos: 5 }),
    };
    let meta = extract_metadata("/tmp/x", Some(b"not an image"), Ok(fs)).unwrap();
    // Both times are after the year 2000.
    let epoch_2000 = 946_684_800;
    assert!(meta.created_at.secs > epoch_2000);
    assert!(meta.modified_at.secs > epoch_2000);
    assert_eq!(meta.created_at, Timestamp { secs: 1_700_000_000, nanos: 0 });
    assert_eq!(meta.modified_at, Timestamp { secs: 1_700_000_001, nanos: 5 });
}

#[test]
fn missing_file_returns_error() {
    let result = extract_metadata("/nonexistent/path/file.jpg", None, Err("gone".to_string()));
    assert!(result.is_err());
    assert_eq!(
        result.unwrap_err().message(),
        "Failed to read filesystem metadata for `/nonexistent/path/file.jpg`: gone"
    );
}

/// A little-endian TIFF file with one entry: `DateTime`.
fn tiff_with_datetime(text: &str) -> Vec<u8> {
    let mut v: Vec<u8> = vec![0x49, 0x49, 0x2a, 0x00, 8, 0, 0, 0];
    v.extend_from_slice(&[1, 0]);
    v.extend_from_slice(&[0x32, 0x01, 2, 0]);
    let n = text.len() as u32 + 1;
    v.extend_from_slice(&n.to_le_bytes());
    v.extend_from_slice(&26u32.to_le_bytes());
    v.extend_from_slice(&[0, 0, 0, 0]);
    v.extend_from_slice(text.as_bytes());
    v.push(0);
    v
}

#[test]
fn exif_date_is_the_creation_time() {
    let file = tiff_with_datetime("2023:06:15 14:30:00");
    assert_eq!(
        try_exif_datetime(&file),
        Some(Timestamp { secs: 1_686_839_400, nanos: 0 })
    );
    let fs = FsTimes {
        created: Some(SinceEpoch { secs: 1_700_000_000, nanos: 0 }),
        modified: Some(SinceEpoch { secs: 1_700_000_001, nanos: 0 }),
    };
    let meta = extract_metadata("/tmp/x.tif", Some(&file), Ok(fs)).unwrap();
    assert_eq!(meta.created_at, Timestamp { secs: 1_686_839_400, nanos: 0 });
    assert_eq!(meta.modified_at, Timestamp { secs: 1_700_000_001, nanos: 0 });
    assert_eq!(try_exif_datetime(b"not an image"), None);
}

#[test]
fn the_original_date_counts_first() {
    let original = Some("2020:01:01 00:00:00".to_string());
    let edited = Some("2023:06:15 14:30:00".to_string());
    assert_eq!(taken_at(&original, &edited), Some(Timestamp { secs: 1_577_836_800, nanos: 0 }));
    assert_eq!(taken_at(&None, &edited), Some(Timestamp { secs: 1_686_839_400, nanos: 0 }));
    // A field that holds no time is not passed over.
    assert_eq!(taken_at(&Some("unknown".to_string()), &edited), None);
    assert_eq!(taken_at(&None, &None), None);
}

#[test]
fn missing_creation_time_is_the_modification_time() {
    let fs = FsTimes { created: None, modified: Some(SinceEpoch { secs: 7, nanos: 8 }) };
    let meta = times_of("x", None, Ok(fs)).unwrap();
    assert_eq!(meta.created_at, Timestamp { secs: 7, nanos: 8 });
    let none = FsTimes { created: Some(SinceEpoch { secs: 7, nanos: 8 }), modified: None };
    let err = times_of("x", None, Ok(none)).unwrap_err();
    assert!(matches!(err, MetadataError::NoTimestamp { .. }));
    assert_eq!(
        err.message(),
        "Filesystem metadata contains no creation or modification time for `x`"
    );
}

#[test]
fn filesystem_times_in_utc() {
    assert_eq!(system_time_to_utc(None), None);
    assert_eq!(
        system_time_to_utc(Some(SinceEpoch { secs: 1, nanos: 2 })),
        Some(Timestamp { secs: 1, nanos: 2 })
    );
    // No calendar holds this time; the present takes its place.
    assert!(system_time_to_utc(Some(SinceEpoch { secs: 1 << 62, nanos: 0 })).is_some());
    assert!(fallback_metadata().created_at.secs > 1_577_836_800);
}

// Queueing

#[test]
fn process_file_enqueues_new_file() {
    let mut queue = UploadQueue::new(store(), 2);

    let id = queue
        .process_file("/tmp/a.jpg", None, stat(18), || Ok(hash_bytes(b"test image content")))
        .unwrap();
    assert!(id.is_some());

    let stats = queue.get_stats().unwrap();
    assert_eq!(stats.pending, 1);
    assert_eq!(stats.total, 1);
}

#[test]
fn process_file_skips_already_uploaded() {
    let mut queue = UploadQueue::new(store(), 2);
    let hash = hash_bytes(b"test image content");

    // First pass: queued.
    let id1 = queue
        .process_file("/tmp/a.jpg", None, stat(18), || Ok(hash.clone()))
        .unwrap();
    assert!(id1.is_some());

    // The file is uploaded, and its hash recorded.
    queue
        .store
        .record_upload(
            "/tmp/a.jpg",
            &hash,
            18,
            0,
            "asset-abc",
            "device-abc",
            "https://immich.example.com",
        )
        .unwrap();

    // Second pass: skipped.
    let id2 = queue
        .process_file("/tmp/a.jpg", None, stat(18), || Ok(hash.clone()))
        .unwrap();
    assert!(id2.is_none());

    // The queue still has the first entry only.
    let stats = queue.get_stats().unwrap();
    assert_eq!(stats.total, 1);
}

#[test]
fn process_file_missing_path_returns_error() {
    let mut queue = UploadQueue::new(store(), 2);
    let result = queue.process_file(
        "/nonexistent/photo.jpg",
        None,
        Err("No such file or directory (os error 2)".to_string()),
        || unreachable!(),
    );
    assert!(result.is_err());
}

#[test]
fn process_file_skips_cloud_placeholder() {
    let mut queue = UploadQueue::new(store(), 2);
    let offline = Ok(FileStat { size: 18, mtime: 0, online: true });

    // Skipped without hashing the file: that would download it.
    let id = queue
        .process_file("/tmp/a.jpg", None, offline, || unreachable!())
        .unwrap();
    assert!(id.is_none(), "Placeholder file should not enqueue");

    let stats = queue.get_stats().unwrap();
    assert_eq!(stats.total, 0, "Placeholder must not produce a queue row");
}

#[test]
fn process_file_skips_a_known_path_without_opening_it() {
    let mut queue = UploadQueue::new(store(), 2);
    queue
        .store
        .record_upload("/tmp/a.jpg", "h", 18, 1_700_000_000, "asset", "device", "")
        .unwrap();
    let known = FileStat { size: 18, mtime: 1_700_000_000, online: false };
    assert_eq!(queue.screen("/tmp/a.jpg", &known).unwrap(), Screening::AlreadyUploaded);
    let other = FileStat { size: 19, mtime: 1_700_000_000, online: false };
    assert_eq!(queue.screen("/tmp/a.jpg", &other).unwrap(), Screening::NeedsHash);
    let id = queue
        .process_file("/tmp/a.jpg", None, Ok(known), || unreachable!())
        .unwrap();
    assert!(id.is_none());
}

#[test]
fn process_file_reports_errors() {
    let mut queue = UploadQueue::new(store(), 2);
    let unreadable = queue.process_file("/tmp/a.jpg", None, stat(18), || {
        Err(HasherError::Read { path: "/tmp/a.jpg".to_string(), detail: "torn".to_string() })
    });
    assert_eq!(
        unreadable.unwrap_err().message(),
        "Failed to hash file `/tmp/a.jpg`: \
         Failed to read file `/tmp/a.jpg` while hashing: torn"
    );
    let no_folder =
        queue.process_file("/tmp/a.jpg", Some(9), stat(18), || Ok("h".to_string()));
    let e = no_folder.unwrap_err();
    assert!(matches!(e, QueueError::Store(_)));
    assert_eq!(
        e.message(),
        "Queue store error: Database query failed: FOREIGN KEY constraint failed"
    );
}

#[test]
fn stored_paths_have_no_extended_prefix() {
    assert_eq!(canonical_path_for_storage("\\\\?\\C:\\a.jpg"), "C:\\a.jpg");
    assert_eq!(canonical_path_for_storage("C:\\a.jpg"), "C:\\a.jpg");
}

#[test]
fn unknown_modification_times_count_as_the_epoch() {
    assert_eq!(mtime_secs(None), 0);
    assert_eq!(mtime_secs(Some(1_700_000_000)), 1_700_000_000);
}

// The pipeline

fn make_pipeline() -> UploadPipeline<DbStore> {
    let server = ServerConfig::default();
    let upload = UploadConfig::default();
    UploadPipeline::new(store(), &server, &upload)
}

#[test]
fn submit_enqueues_new_file() {
    let mut pipeline = make_pipeline();

    let id = pipeline
        .submit("/tmp/p.jpg", None, stat(11), || Ok(hash_bytes(b"photo bytes")))
        .unwrap();
    assert!(id.is_some());

    let stats = pipeline.stats().unwrap();
    assert_eq!(stats.pending, 1);
}

#[test]
fn submit_skips_already_uploaded() {
    let mut pipeline = make_pipeline();
    let hash = hash_bytes(b"photo bytes");
    pipeline
        .queue
        .store
        .record_upload("/elsewhere.jpg", &hash, 11, 0, "asset", "device", "")
        .unwrap();

    let id = pipeline
        .submit("/tmp/p.jpg", None, stat(11), || Ok(hash.clone()))
        .unwrap();
    assert!(id.is_none());
}

#[test]
fn submit_passes_errors_on() {
    let mut pipeline = make_pipeline();
    let r = pipeline.submit("/tmp/p.jpg", None, Err("gone".to_string()), || unreachable!());
    let e = r.unwrap_err();
    assert!(matches!(e, PipelineError::Queue(_)));
    assert_eq!(
        e.message(),
        "Queue error: Failed to hash file `/tmp/p.jpg`: \
         Failed to open file `/tmp/p.jpg` for hashing: gone"
    );
}

#[test]
fn double_start_returns_error() {
    let mut pipeline = make_pipeline();

    pipeline.start().unwrap();
    let result = pipeline.start();
    assert!(matches!(result, Err(PipelineError::AlreadyRunning)));
    assert!(pipeline.stop());
}

#[test]
fn pipeline_start_and_stop() {
    let mut pipeline = make_pipeline();
    pipeline.start().unwrap();
    assert!(pipeline.running);
    // The worker looks at the queue at least once.
    assert_eq!(pipeline.worker.action(), WorkerAction::Dequeue { limit: 2 });
    assert!(pipeline.stop());
    assert_eq!(pipeline.worker.action(), WorkerAction::Exit);
    assert!(!pipeline.running);
    assert!(!pipeline.stop());
}

#[test]
fn pipeline_settings_and_messages() {
    let server = ServerConfig {
        url: "".to_string(),
        api_key: "".to_string(),
        device_id: "immichsync-box".to_string(),
    };
    let upload = UploadConfig { concurrency: 4, max_retries: 7, ..UploadConfig::default() };
    let mut p = UploadPipeline::new(store(), &server, &upload);
    assert_eq!(p.worker.config.concurrency, 4);
    assert_eq!(p.worker.config.max_retries, 7);
    assert_eq!(p.worker.config.device_id, "immichsync-box");
    assert_eq!(p.worker.config.base_retry_delay, Duration::from_secs(1));
    p.pause();
    assert!(p.worker.paused);
    p.resume();
    assert!(!p.worker.paused);
    assert_eq!(PipelineError::NotStarted.message(), "Pipeline is not started; call start() first");
    assert_eq!(PipelineError::AlreadyRunning.message(), "Worker already running");
}

// The worker loop

#[test]
fn worker_claims_rests_and_stops() {
    let mut w = UploadWorker::new(WorkerConfig {
        concurrency: 3,
        max_retries: 5,
        base_retry_delay: Duration::from_secs(1),
        device_id: "d".to_string(),
    });
    assert_eq!(w.action(), WorkerAction::Dequeue { limit: 3 });
    w.on_event(WorkerEvent::Claimed { count: 0 });
    assert_eq!(w.action(), WorkerAction::Rest { secs: 2 });
    w.on_event(WorkerEvent::Rested);
    w.on_event(WorkerEvent::ClaimFailed);
    assert_eq!(w.action(), WorkerAction::Rest { secs: 5 });
    w.on_event(WorkerEvent::Rested);
    w.pause();
    assert_eq!(w.action(), WorkerAction::AwaitResume);
    w.resume();
    w.on_event(WorkerEvent::Claimed { count: 2 });
    // The whole batch is seen to before the loop ends or claims again.
    w.stop();
    assert_eq!(w.action(), WorkerAction::UploadBatch);
    w.on_event(WorkerEvent::Claimed { count: 1 });
    assert_eq!(w.action(), WorkerAction::UploadBatch);
    w.on_event(WorkerEvent::BatchDone);
    assert_eq!(w.phase, LoopPhase::Ready);
    assert_eq!(w.action(), WorkerAction::Exit);
}

#[test]
fn default_worker_settings() {
    let c = WorkerConfig::default();
    assert_eq!((c.concurrency, c.max_retries), (2, 5));
    assert_eq!(c.base_retry_delay, Duration::from_secs(1));
    assert!(c.device_id.starts_with("immichsync-"));
    let r = c.run_config();
    assert_eq!(r.max_retries, 5);
    assert_eq!(r.device_id, c.device_id);
}

// The upload of one entry

#[test]
fn backoff_delay_sequence() {
    let base = Duration::from_secs(1);
    assert_eq!(backoff_delay(1, base), Duration::from_secs(1));
    assert_eq!(backoff_delay(2, base), Duration::from_secs(2));
    assert_eq!(backoff_delay(3, base), Duration::from_secs(4));
    assert_eq!(backoff_delay(4, base), Duration::from_secs(8));
    assert_eq!(backoff_delay(5, base), Duration::from_secs(16));
    assert_eq!(backoff_delay(6, base), Duration::from_secs(32));
    // At most 32 s.
    assert_eq!(backoff_delay(10, base), Duration::from_secs(32));
}

#[test]
fn sha1_of_string_is_deterministic() {
    let h1 = sha1_of_string("hello");
    let h2 = sha1_of_string("hello");
    assert_eq!(h1, h2);
    assert_eq!(h1.len(), 40);
    assert_eq!(h1, "aaf4c61ddcc5e8a2dabede0f3b482cd9aea9434d");
}

/// What the test server and disk answer in a run.
struct World {
    send: Result<&'static str, &'static str>,
    checked: bool,
    log: Vec<String>,
}

/// Runs an entry to its end against the store.
fn process_item(entry: &QueueEntry, store: &mut DbStore, world: &mut World, config: &RunConfig) {
    let mut run = ItemRun::start(entry, config);
    loop {
        let event = match run.action() {
            ItemAction::Stop => break,
            ItemAction::UpdateStatus { id, status, error } => {
                world.log.push(format!("status {status}"));
                ItemEvent::Stored(store.update_status(id, status, error.as_deref()).is_ok())
            }
            ItemAction::ReadTimes { .. } => ItemEvent::Times { meta: meta(), mtime: 1_700_000_000 },
            ItemAction::CheckServer { item } => {
                world.log.push(format!("check {}", item.checksum));
                ItemEvent::Checked(Ok(vec![BulkCheckResult {
                    id: item.id,
                    exists: world.checked,
                    asset_id: if world.checked { Some("known".to_string()) } else { None },
                }]))
            }
            ItemAction::Send { device_asset_id, .. } => {
                world.log.push(format!("send {device_asset_id}"));
                ItemEvent::Sent(match world.send {
                    Ok(id) => Ok(UploadResult { asset_id: id.to_string(), is_duplicate: false }),
                    Err(e) => Err(e.to_string()),
                })
            }
            ItemAction::Record {
                path,
                hash,
                size,
                mtime,
                asset_id,
                device_asset_id,
                server_url,
            } => {
                world.log.push(format!("record {asset_id}"));
                ItemEvent::Stored(
                    store
                        .record_upload(
                            &path,
                            &hash,
                            size,
                            mtime,
                            &asset_id,
                            &device_asset_id,
                            server_url,
                        )
                        .is_ok(),
                )
            }
            ItemAction::FindFolder { id } => {
                ItemEvent::Folder(store.get_folder(id).ok().flatten())
            }
            ItemAction::AddToAlbum { album, asset_id } => {
                world.log.push(format!("album {album} {asset_id}"));
                ItemEvent::Done
            }
            ItemAction::Trash { path, root } => {
                world.log.push(format!("trash {path} of {root}"));
                ItemEvent::Done
            }
            ItemAction::Delete { path } => {
                world.log.push(format!("delete {path}"));
                ItemEvent::Done
            }
            ItemAction::Complete { id, asset } => {
                world.log.push("complete".to_string());
                ItemEvent::Stored(store.mark_completed(id, asset.as_deref()).is_ok())
            }
            ItemAction::Wait { delay } => {
                world.log.push(format!("wait {}", delay.as_secs()));
                ItemEvent::Waited
            }
        };
        run.resume(event);
    }
    assert_eq!(run.phase(), Phase::Finished);
}

fn run_config(max_retries: u32) -> RunConfig {
    RunConfig {
        max_retries,
        base_retry_delay: Duration::from_millis(1),
        device_id: "immichsync-test".to_string(),
    }
}

#[test]
fn worker_uploads_file_and_marks_completed() {
    let mut store = store();
    let hash = hash_bytes(b"photo data");
    store
        .enqueue(NewQueueEntry {
            file_path: "/tmp/photo.jpg".to_string(),
            file_hash: Some(hash.clone()),
            file_size: Some(10),
            folder_id: None,
        })
        .unwrap();

    let entry = store
        .dequeue_pending(1)
        .unwrap()
        .into_iter()
        .next()
        .unwrap();

    let mut world = World { send: Ok("asset-1"), checked: false, log: vec![] };
    process_item(&entry, &mut store, &mut world, &run_config(3));

    let stats = store.get_queue_stats().unwrap();
    assert_eq!(stats.completed, 1);
    assert_eq!(stats.pending, 0);
    assert!(store.is_file_uploaded(&hash).unwrap());
    assert_eq!(
        world.log,
        vec![
            "status uploading".to_string(),
            format!("send {hash}-photo.jpg"),
            "record asset-1".to_string(),
            "complete".to_string(),
        ]
    );
}

#[test]
fn worker_retries_on_failure_and_eventually_fails() {
    let mut store = store();
    let hash = hash_bytes(b"photo data");
    store
        .enqueue(NewQueueEntry {
            file_path: "/tmp/photo.jpg".to_string(),
            file_hash: Some(hash),
            file_size: Some(10),
            folder_id: None,
        })
        .unwrap();

    // The first failure returns the entry, the second uses up its retries.
    let mut world = World { send: Err("simulated upload failure"), checked: false, log: vec![] };
    for _ in 0..2 {
        let entry = store.dequeue_pending(1).unwrap().into_iter().next().unwrap();
        process_item(&entry, &mut store, &mut world, &run_config(2));
    }

    let stats = store.get_queue_stats().unwrap();
    assert_eq!(stats.failed, 1);
    assert_eq!(stats.completed, 0);
    let row = &store.db.get_recent_queue_entries(1)[0];
    assert_eq!(row.status, QueueStatus::Failed);
    assert_eq!(row.error_message, Some("simulated upload failure".to_string()));
}

#[test]
fn an_asset_on_the_server_is_not_sent_again() {
    let mut store = store();
    store
        .enqueue(NewQueueEntry {
            file_path: "/tmp/photo.jpg".to_string(),
            file_hash: Some("abc".to_string()),
            file_size: Some(10),
            folder_id: None,
        })
        .unwrap();
    let mut entry = store.dequeue_pending(1).unwrap().into_iter().next().unwrap();
    entry.retry_count = 1;
    let mut world = World { send: Ok("new"), checked: true, log: vec![] };
    process_item(&entry, &mut store, &mut world, &run_config(3));
    assert_eq!(world.log, vec!["status uploading", "check abc", "complete"]);
}

#[test]
fn album_and_source_follow_the_folder() {
    let mut db = Database::new();
    let id = db.add_folder("/photos", None, false).unwrap();
    db.update_folder(
        id,
        None,
        true,
        &WatchMode::Native,
        30,
        &AlbumMode::Fixed,
        Some("Holiday"),
        None,
        None,
        &PostUpload::Trash,
        true,
    );
    let mut store = DbStore::new(db);
    store
        .enqueue(NewQueueEntry {
            file_path: "/photos/a.jpg".to_string(),
            file_hash: Some("abc".to_string()),
            file_size: Some(10),
            folder_id: Some(id),
        })
        .unwrap();
    let entry = store.dequeue_pending(1).unwrap().into_iter().next().unwrap();
    let mut world = World { send: Ok("asset-9"), checked: false, log: vec![] };
    process_item(&entry, &mut store, &mut world, &run_config(3));
    assert_eq!(
        world.log,
        vec![
            "status uploading",
            "send abc-a.jpg",
            "record asset-9",
            "album Holiday asset-9",
            "trash /photos/a.jpg of /photos",
            "complete",
        ]
    );
}

#[test]
fn a_failed_upload_leaves_the_source_alone() {
    let mut db = Database::new();
    let id = db.add_folder("/photos", None, false).unwrap();
    db.update_folder(
        id,
        None,
        true,
        &WatchMode::Native,
        30,
        &AlbumMode::NoAlbum,
        None,
        None,
        None,
        &PostUpload::Delete,
        true,
    );
    let mut store = DbStore::new(db);
    store
        .enqueue(NewQueueEntry {
            file_path: "/photos/a.jpg".to_string(),
            file_hash: Some("abc".to_string()),
            file_size: Some(10),
            folder_id: Some(id),
        })
        .unwrap();
    let entry = store.dequeue_pending(1).unwrap().into_iter().next().unwrap();
    let config = RunConfig { base_retry_delay: Duration::from_secs(1), ..run_config(5) };
    let mut world = World { send: Err("offline"), checked: false, log: vec![] };
    process_item(&entry, &mut store, &mut world, &config);
    assert_eq!(
        world.log,
        vec!["status uploading", "send abc-a.jpg", "wait 1", "status pending"]
    );
    let mut ok = World { send: Ok("x"), checked: false, log: vec![] };
    let entry = store.dequeue_pending(1).unwrap().into_iter().next().unwrap();
    process_item(&entry, &mut store, &mut ok, &config);
    assert_eq!(ok.log.last(), Some(&"complete".to_string()));
    assert!(ok.log.contains(&"delete /photos/a.jpg".to_string()));
}

#[test]
fn device_asset_ids() {
    assert_eq!(device_asset_id("/photos/a.jpg", &Some("abc".to_string())), "abc-a.jpg");
    assert_eq!(
        device_asset_id("/photos/a.jpg", &None),
        format!("{}-a.jpg", sha1_of_string("/photos/a.jpg"))
    );
    assert_eq!(device_asset_id("/", &Some("abc".to_string())), "abc-unknown");
}

#[test]
fn album_names_follow_the_mode() {
    let m = meta();
    let mut f = folder(1, "/media/Pictures");
    assert_eq!(resolve_album_name(&f, "/media/Pictures/trip/a.jpg", &m), None);
    f.album_mode = AlbumMode::Folder;
    assert_eq!(
        resolve_album_name(&f, "/media/Pictures/trip/a.jpg", &m),
        Some("Pictures".to_string())
    );
    f.album_mode = AlbumMode::Subfolder;
    assert_eq!(
        resolve_album_name(&f, "/media/Pictures/trip/a.jpg", &m),
        Some("trip".to_string())
    );
    f.album_mode = AlbumMode::Date;
    assert_eq!(
        resolve_album_name(&f, "/media/Pictures/trip/a.jpg", &m),
        Some("2023-06".to_string())
    );
    f.album_mode = AlbumMode::Fixed;
    assert_eq!(resolve_album_name(&f, "/media/Pictures/trip/a.jpg", &m), None);
    f.album_name = Some("Best".to_string());
    assert_eq!(
        resolve_album_name(&f, "/media/Pictures/trip/a.jpg", &m),
        Some("Best".to_string())
    );
}

// The trash

#[test]
fn trashed_files_keep_their_path_below_the_folder() {
    let p = trash_file("/photos/trip/a.jpg", "/photos");
    assert_eq!(p.trash_root, "/photos/.immichsync-trash");
    assert_eq!(p.destination, "/photos/.immichsync-trash/trip/a.jpg");
    assert_eq!(p.create_dir, Some("/photos/.immichsync-trash/trip".to_string()));
    let q = trash_file("/elsewhere/a.jpg", "/photos");
    assert_eq!(q.destination, "/photos/.immichsync-trash/a.jpg");
}

#[test]
fn trash_is_cleaned_where_files_are_trashed() {
    let mut a = folder(1, "/a");
    a.post_upload = PostUpload::Trash;
    let b = folder(2, "/b");
    let mut c = folder(3, "/c");
    c.post_upload = PostUpload::Trash;
    assert_eq!(
        trash_roots(&vec![a, b, c]),
        vec!["/a/.immichsync-trash".to_string(), "/c/.immichsync-trash".to_string()]
    );
}

#[test]
fn trashed_files_expire() {
    assert!(!should_delete(None, 0));
    assert!(!should_delete(Some((86_400 * 30, 0)), 30));
    assert!(should_delete(Some((86_400 * 30, 1)), 30));
    assert!(should_delete(Some((86_400 * 30 + 1, 0)), 30));
    assert!(!should_delete(Some((86_400 * 29, 999)), 30));
}

#[test]
fn deepest_directories_are_removed_first() {
    let dirs = vec!["/t/a".to_string(), "/t/a/b/c".to_string(), "/t/a/b".to_string()];
    assert_eq!(
        removal_order(dirs),
        vec!["/t/a/b/c".to_string(), "/t/a/b".to_string(), "/t/a".to_string()]
    );
}

#[test]
fn store_errors_have_a_message() {
    let e = StoreError { message: "locked".to_string() };
    assert_eq!(QueueError::Store(e).message(), "Queue store error: locked");
}

fn found(path: &str, is_dir: bool, age: Option<(u64, u32)>) -> FoundEntry {
    FoundEntry { path: path.to_string(), is_dir, is_file: !is_dir, age }
}

fn step_text(step: Option<CleanupStep>) -> String {
    match step {
        Some(CleanupStep::ReadDir { path }) => format!("read {path}"),
        Some(CleanupStep::DeleteFile { path }) => format!("delete {path}"),
        None => "end".to_string(),
    }
}

#[test]
fn only_expired_files_leave_the_trash() {
    let old = Some((30 * 86400 + 1, 0));
    let young = Some((30 * 86400, 0));
    let mut run = CleanupRun::start(30);
    run.take_entries(vec![
        found("/t/young.jpg", false, young),
        found("/t/a", true, None),
        found("/t/old.jpg", false, old),
        found("/t/unknown.jpg", false, None),
    ]);
    assert_eq!(step_text(run.next()), "read /t/a");
    run.take_entries(vec![found("/t/a/b", true, old), found("/t/a/old.jpg", false, old)]);
    assert_eq!(step_text(run.next()), "read /t/a/b");
    run.take_entries(vec![]);
    assert_eq!(step_text(run.next()), "delete /t/a/old.jpg");
    assert_eq!(step_text(run.next()), "delete /t/old.jpg");
    assert_eq!(step_text(run.next()), "end");
    assert_eq!(run.removals(), vec!["/t/a/b", "/t/a"]);
}

#[test]
fn the_answers_of_the_storage_decide() {
    let fails = || StoreError { message: "disk".to_string() };
    assert!(matches!(screened(true, Ok(false)), Ok(Screening::Placeholder)));
    assert!(matches!(screened(true, Err(fails())), Ok(Screening::Placeholder)));
    assert!(matches!(screened(false, Ok(true)), Ok(Screening::AlreadyUploaded)));
    assert!(matches!(screened(false, Ok(false)), Ok(Screening::NeedsHash)));
    match screened(false, Err(fails())) {
        Err(QueueError::Store(e)) => assert_eq!(e.message, "disk"),
        other => panic!("unexpected answer {other:?}"),
    }
    assert!(matches!(needs_entry(Ok(true)), Ok(false)));
    assert!(matches!(needs_entry(Ok(false)), Ok(true)));
    assert!(matches!(needs_entry(Err(fails())), Err(QueueError::Store(_))));
    assert!(matches!(entry_made(Ok(4)), Ok(Some(4))));
    assert!(matches!(entry_made(Err(fails())), Err(QueueError::Store(_))));
}

#[test]
fn a_recorded_file_is_not_opened() {
    let mut store = store();
    store.record_upload("/a.jpg", "h", 10, 1_700_000_000, "x", "d", "https://s").unwrap();
    let mut queue = UploadQueue::new(store, 1);
    let r = queue.process_file("/a.jpg", None, stat(10), || panic!("the file was opened"));
    assert!(matches!(r, Ok(None)));
    let online = Ok(FileStat { size: 10, mtime: 5, online: true });
    let r = queue.process_file("/b.jpg", None, online, || panic!("the file was opened"));
    assert!(matches!(r, Ok(None)));
}

#[test]
fn times_beyond_the_calendar_are_not_held() {
    let at = |secs: u64| system_time_to_utc(Some(SinceEpoch { secs, nanos: 0 })).unwrap();
    assert_eq!(at(8_210_266_876_799).secs, 8_210_266_876_799);
    assert!(at(8_210_266_876_800).secs < 8_210_266_876_800);
    let leap = system_time_to_utc(Some(SinceEpoch { secs: 59, nanos: 1_500_000_000 })).unwrap();
    assert_eq!((leap.secs, leap.nanos), (59, 1_500_000_000));
}

#[test]
fn a_file_without_times_can_be_uploaded() {
    let client = ImmichClient::new("https://s", "k").ok().unwrap();
    let m = fallback_metadata();
    assert!(upload_asset(&client, "/a.jpg", "i", "d", m.created_at, m.modified_at).is_some());
    let far = Timestamp { secs: i64::MAX, nanos: 0 };
    assert!(upload_asset(&client, "/a.jpg", "i", "d", far, m.modified_at).is_none());
    let mut f = folder(1, "/p");
    f.album_mode = AlbumMode::Date;
    assert!(resolve_album_name(&f, "/p/a.jpg", &m).is_some());
    let late = FileMetadata { created_at: far, modified_at: m.modified_at };
    assert_eq!(resolve_album_name(&f, "/p/a.jpg", &late), None);
}
