//! The tables: settings, watched folders, recorded uploads and the queue.

use immichsync::clock::Timestamp;
use immichsync::config::UploadConfig;
use immichsync::db::{
    migrations_from, AlbumMode, Database, DbError, FolderSettings, PostUpload, QueueEntry,
    QueueStatus, UploadOrder, UploadedFile, WatchMode, WatchedFolder, LATEST_SCHEMA,
};
use immichsync::db_store::{present, DbStore};
use immichsync::upload::queue::{NewQueueEntry, QueueStore};

fn open_test_db() -> Database {
    Database::new()
}

fn folder_row(id: i64, path: &str) -> WatchedFolder {
    WatchedFolder {
        id,
        path: path.to_string(),
        label: None,
        enabled: true,
        watch_mode: WatchMode::Native,
        poll_interval_secs: 30,
        album_mode: AlbumMode::NoAlbum,
        album_name: None,
        include_patterns: None,
        exclude_patterns: None,
        post_upload: PostUpload::Keep,
        ignore_online_files: true,
        auto_added: false,
        created_at: "2026-05-26 00:00:00".to_string(),
        updated_at: "2026-05-26 00:00:00".to_string(),
    }
}

fn queue_row(id: i64, path: &str, status: QueueStatus) -> QueueEntry {
    QueueEntry {
        id,
        file_path: path.to_string(),
        file_hash: None,
        file_size: None,
        folder_id: None,
        status,
        retry_count: 0,
        error_message: None,
        queued_at: "2026-05-26 00:00:00".to_string(),
        completed_at: None,
    }
}

fn upload_row(id: i64, path: &str, hash: &str) -> UploadedFile {
    UploadedFile {
        id,
        file_path: path.to_string(),
        file_hash: hash.to_string(),
        file_size: 10,
        file_mtime: 20,
        immich_asset_id: None,
        device_asset_id: "d".to_string(),
        uploaded_at: "2026-05-26 00:00:00".to_string(),
        server_url: "https://immich.example.com".to_string(),
    }
}

// Settings

#[test]
fn config_roundtrip() {
    let mut db = open_test_db();
    db.set_config_value("foo", "bar");
    let val = db.get_config_value("foo");
    assert_eq!(val, Some("bar".to_string()));
}

#[test]
fn config_missing_key_returns_none() {
    let db = open_test_db();
    assert_eq!(db.get_config_value("does_not_exist"), None);
}

#[test]
fn a_setting_is_replaced() {
    let mut db = open_test_db();
    db.set_config_value("foo", "bar");
    db.set_config_value("other", "x");
    db.set_config_value("foo", "baz");
    assert_eq!(db.get_config_value("foo"), Some("baz".to_string()));
    assert_eq!(db.get_config_value("other"), Some("x".to_string()));
}

// Schema versions

#[test]
fn migrations_run_from_the_stored_version() {
    assert_eq!(migrations_from(0), vec![1, 2, 3]);
    assert_eq!(migrations_from(1), vec![2, 3]);
    assert_eq!(migrations_from(2), vec![3]);
    assert!(migrations_from(3).is_empty());
    assert!(migrations_from(9).is_empty());
    assert_eq!(migrations_from(0).last(), Some(&LATEST_SCHEMA));
}

#[test]
fn schema_version_is_kept() {
    let mut db = open_test_db();
    db.set_schema_version(2);
    assert_eq!(db.get_schema_version(), 2);
    assert_eq!(db.get_config_value("schema_version"), Some("2".to_string()));
    db.set_config_value("schema_version", "not a number");
    assert_eq!(db.get_schema_version(), 0);
}

// Watched folders

#[test]
fn add_and_get_folder() {
    let mut db = open_test_db();
    let id = db
        .add_folder("/some/path", Some("My Photos"), false)
        .unwrap();
    assert!(id > 0);

    let folders = db.get_folders();
    assert_eq!(folders.len(), 1);
    assert_eq!(folders[0].path, "/some/path");
    assert_eq!(folders[0].label, Some("My Photos".to_string()));
    assert!(folders[0].enabled);
    assert_eq!(folders[0].watch_mode, WatchMode::Native);
    assert_eq!(folders[0].album_mode, AlbumMode::NoAlbum);
}

#[test]
fn get_folder_by_path() {
    let mut db = open_test_db();
    db.add_folder("/photos", None, false).unwrap();

    let found = db.get_folder_by_path("/photos");
    assert!(found.is_some());

    let not_found = db.get_folder_by_path("/missing");
    assert!(not_found.is_none());
}

#[test]
fn remove_folder() {
    let mut db = open_test_db();
    let id = db.add_folder("/to/remove", None, false).unwrap();
    db.remove_folder(id).unwrap();
    assert!(db.get_folders().is_empty());
}

#[test]
fn update_folder() {
    let mut db = open_test_db();
    let id = db.add_folder("/update/me", None, false).unwrap();

    db.update_folder(
        id,
        Some("Updated Label"),
        false,
        &WatchMode::Poll,
        60,
        &AlbumMode::Date,
        None,
        None,
        None,
        &PostUpload::Trash,
        false,
    );

    let folder = db.get_folder_by_path("/update/me").unwrap();
    assert_eq!(folder.label, Some("Updated Label".to_string()));
    assert!(!folder.enabled);
    assert_eq!(folder.watch_mode, WatchMode::Poll);
    assert_eq!(folder.poll_interval_secs, 60);
    assert_eq!(folder.album_mode, AlbumMode::Date);
    assert_eq!(folder.post_upload, PostUpload::Trash);
    assert!(!folder.ignore_online_files);
}

#[test]
fn add_folder_defaults_ignore_online_files_on() {
    let mut db = open_test_db();
    db.add_folder("/photos/cloud", None, false).unwrap();
    let folder = db.get_folder_by_path("/photos/cloud").unwrap();
    assert!(
        folder.ignore_online_files,
        "Newly added folders should default to ignoring cloud-placeholder files"
    );
}

#[test]
fn a_path_is_watched_once() {
    let mut db = open_test_db();
    db.add_folder("/photos", None, false).unwrap();
    assert_eq!(db.add_folder("/photos", Some("again"), true), Err(DbError::DuplicatePath));
    assert_eq!(db.get_folders().len(), 1);
    assert_eq!(
        DbError::DuplicatePath.message(),
        "Database query failed: UNIQUE constraint failed: watched_folders.path"
    );
    assert_eq!(
        DbError::ForeignKey.message(),
        "Database query failed: FOREIGN KEY constraint failed"
    );
    assert_eq!(
        DbError::IdsExhausted.message(),
        "Database query failed: database or disk is full"
    );
    assert_eq!(
        DbError::Corrupt.message(),
        "Database query failed: database disk image is malformed"
    );
}

#[test]
fn a_folder_with_queued_files_stays() {
    let mut db = open_test_db();
    let id = db.add_folder("/photos", None, false).unwrap();
    db.enqueue("/photos/a.jpg", None, None, Some(id)).unwrap();
    assert_eq!(db.remove_folder(id), Err(DbError::ForeignKey));
    assert_eq!(db.get_folders().len(), 1);
}

#[test]
fn a_queued_file_names_a_known_folder() {
    let mut db = open_test_db();
    assert_eq!(db.enqueue("/photos/a.jpg", None, None, Some(7)), Err(DbError::ForeignKey));
    assert_eq!(db.get_queue_stats().pending, 0);
}

#[test]
fn folders_are_read_by_id() {
    let mut db = open_test_db();
    let a = db.add_folder_at("/a", None, false, "2026-01-01 00:00:00").unwrap();
    let b = db.add_folder_at("/b", Some("B"), true, "2026-01-02 00:00:00").unwrap();
    assert_ne!(a, b);
    let f = db.get_folder(b).unwrap();
    assert_eq!(f.path, "/b");
    assert!(f.auto_added);
    assert_eq!(f.created_at, "2026-01-02 00:00:00");
    assert!(db.get_folder(99).is_none());
}

#[test]
fn an_update_keeps_path_and_creation_time() {
    let mut db = open_test_db();
    let id = db.add_folder_at("/a", None, true, "2026-01-01 00:00:00").unwrap();
    let settings = FolderSettings {
        label: Some("L"),
        enabled: true,
        watch_mode: WatchMode::Native,
        poll_interval_secs: 5,
        album_mode: AlbumMode::Fixed,
        album_name: Some("Holiday"),
        include_patterns: None,
        exclude_patterns: None,
        post_upload: PostUpload::Delete,
        ignore_online_files: true,
    };
    db.update_folder_at(id, &settings, "2026-02-02 00:00:00");
    let f = db.get_folder(id).unwrap();
    assert_eq!(f.path, "/a");
    assert!(f.auto_added);
    assert_eq!(f.created_at, "2026-01-01 00:00:00");
    assert_eq!(f.updated_at, "2026-02-02 00:00:00");
    assert_eq!(f.album_name, Some("Holiday".to_string()));
    assert_eq!(f.post_upload, PostUpload::Delete);
}

// Recorded uploads

#[test]
fn is_file_uploaded_and_record() {
    let mut db = open_test_db();
    let hash = "aabbcc112233";

    assert!(!db.is_file_uploaded(hash));

    db.record_upload(
        "/photos/img.jpg",
        hash,
        1024,
        1_700_000_000,
        Some("asset-uuid-1"),
        "hash123-img.jpg",
        "https://immich.example.com",
    )
    .unwrap();

    assert!(db.is_file_uploaded(hash));
}

#[test]
fn fast_path_dedup_hit_on_same_path_size_mtime() {
    let mut db = open_test_db();
    db.record_upload(
        "/photos/cloud.jpg",
        "deadbeef",
        42_000,
        1_700_000_000,
        Some("asset-1"),
        "device-1",
        "https://immich.example.com",
    )
    .unwrap();

    assert!(db.is_file_uploaded_fast_path("/photos/cloud.jpg", 42_000, 1_700_000_000));
}

#[test]
fn fast_path_dedup_miss_on_different_mtime() {
    let mut db = open_test_db();
    db.record_upload(
        "/photos/cloud.jpg",
        "deadbeef",
        42_000,
        1_700_000_000,
        Some("asset-1"),
        "device-1",
        "https://immich.example.com",
    )
    .unwrap();

    // Another modification time: the file was saved again.
    assert!(!db.is_file_uploaded_fast_path("/photos/cloud.jpg", 42_000, 1_700_000_001));
    // Another size.
    assert!(!db.is_file_uploaded_fast_path("/photos/cloud.jpg", 42_001, 1_700_000_000));
    // Another path.
    assert!(!db.is_file_uploaded_fast_path("/photos/other.jpg", 42_000, 1_700_000_000));
}

#[test]
fn uploads_are_listed_by_folder() {
    let mut db = open_test_db();
    for (path, hash) in [
        ("C:\\Pictures\\a.jpg", "1"),
        ("C:\\Pictures\\sub\\b.jpg", "2"),
        ("C:\\PicturesOld\\c.jpg", "3"),
        ("D:\\d.jpg", "4"),
    ] {
        db.record_upload(path, hash, 1, 1, None, "d", "s").unwrap();
    }
    let mut listed = db.get_uploaded_paths_in_folder("C:\\Pictures");
    listed.sort();
    assert_eq!(
        listed,
        vec!["C:\\Pictures\\a.jpg".to_string(), "C:\\Pictures\\sub\\b.jpg".to_string()]
    );
}

// The queue

#[test]
fn enqueue_and_dequeue() {
    let mut db = open_test_db();
    db.enqueue("/photos/a.jpg", Some("hash1"), Some(2048), None)
        .unwrap();
    db.enqueue("/photos/b.jpg", Some("hash2"), Some(4096), None)
        .unwrap();

    let entries = db.dequeue_pending(10);
    assert_eq!(entries.len(), 2);
    let stats = db.get_queue_stats();
    assert_eq!(stats.uploading, 2);
    assert_eq!(stats.pending, 0);
}

#[test]
fn no_entry_is_claimed_twice() {
    let mut db = open_test_db();
    let a = db.enqueue_at("/a.jpg", None, None, None, "2026-01-01 00:00:00").unwrap();
    let b = db.enqueue_at("/b.jpg", None, None, None, "2026-01-02 00:00:00").unwrap();
    let c = db.enqueue_at("/c.jpg", None, None, None, "2026-01-03 00:00:00").unwrap();

    // The newest entry is claimed first.
    let first: Vec<i64> = db.dequeue_pending(2).iter().map(|e| e.id).collect();
    assert_eq!(first, vec![c, b]);
    let second: Vec<i64> = db.dequeue_pending(2).iter().map(|e| e.id).collect();
    assert_eq!(second, vec![a]);
    assert!(db.dequeue_pending(2).is_empty());
    assert_eq!(db.get_queue_stats().uploading, 3);
}

#[test]
fn entries_are_claimed_in_the_order_of_the_settings() {
    let mut db = open_test_db();
    let a = db.enqueue_at("/a.jpg", None, None, None, "2026-01-01 00:00:00").unwrap();
    let b = db.enqueue_at("/b.jpg", None, None, None, "2026-01-02 00:00:00").unwrap();
    let c = db.enqueue_at("/c.jpg", None, None, None, "2026-01-02 00:00:00").unwrap();
    let upload = UploadConfig { order: "oldest_first".to_string(), ..UploadConfig::default() };
    assert_eq!(upload.claim_order(), UploadOrder::OldestFirst);
    assert_eq!(UploadConfig::default().claim_order(), UploadOrder::NewestFirst);
    assert_eq!(UploadOrder::from_str("other"), UploadOrder::NewestFirst);
    let mut store = DbStore::with_order(db, upload.claim_order());
    let ids: Vec<i64> = store.dequeue_pending(5).unwrap().iter().map(|e| e.id).collect();
    assert_eq!(ids, vec![a, b, c]);
}

#[test]
fn every_enqueue_adds_an_entry() {
    let mut db = open_test_db();
    let a = db.enqueue("/a.jpg", Some("h"), Some(1), None).unwrap();
    let b = db.enqueue("/a.jpg", Some("h"), Some(1), None).unwrap();
    assert_eq!((a, b), (1, 2));
    assert_eq!(db.get_queue_stats().pending, 2);
}

#[test]
fn update_queue_status_to_completed() {
    let mut db = open_test_db();
    let id = db.enqueue("/photos/c.jpg", None, None, None).unwrap();

    db.update_queue_status(id, &QueueStatus::Uploading, None);
    db.update_queue_status(id, &QueueStatus::Completed, None);

    let stats = db.get_queue_stats();
    assert_eq!(stats.completed, 1);
    assert_eq!(stats.uploading, 0);
}

#[test]
fn update_queue_status_to_failed_increments_retry() {
    let mut db = open_test_db();
    let id = db.enqueue("/photos/d.jpg", None, None, None).unwrap();

    db.update_queue_status(id, &QueueStatus::Failed, Some("timeout"));

    let stats = db.get_queue_stats();
    assert_eq!(stats.failed, 1);
    let entries = db.get_recent_queue_entries(10);
    assert_eq!(entries[0].retry_count, 1);
    assert_eq!(entries[0].error_message, Some("timeout".to_string()));
}

#[test]
fn requeue_failed() {
    let mut db = open_test_db();
    let id = db.enqueue("/photos/e.jpg", None, None, None).unwrap();
    db.update_queue_status(id, &QueueStatus::Failed, Some("err"));

    let requeued = db.requeue_failed(5);
    assert_eq!(requeued, 1);

    let stats = db.get_queue_stats();
    assert_eq!(stats.pending, 1);
    assert_eq!(stats.failed, 0);
}

#[test]
fn used_up_entries_are_not_requeued() {
    let mut db = open_test_db();
    let id = db.enqueue("/photos/e.jpg", None, None, None).unwrap();
    db.update_queue_status(id, &QueueStatus::Failed, Some("err"));
    assert_eq!(db.requeue_failed(1), 0);
    assert_eq!(db.get_queue_stats().failed, 1);
}

#[test]
fn purge_completed() {
    let mut db = open_test_db();
    let id = db.enqueue("/photos/f.jpg", None, None, None).unwrap();
    db.update_queue_status(id, &QueueStatus::Completed, None);

    let purged = db.purge_completed();
    assert_eq!(purged, 1);
    let stats = db.get_queue_stats();
    assert_eq!(stats.completed, 0);
}

#[test]
fn purging_keeps_unfinished_entries() {
    let mut db = open_test_db();
    let a = db.enqueue("/a.jpg", None, None, None).unwrap();
    let b = db.enqueue("/b.jpg", None, None, None).unwrap();
    let c = db.enqueue("/c.jpg", None, None, None).unwrap();
    db.update_queue_status(a, &QueueStatus::Completed, None);
    db.update_queue_status(b, &QueueStatus::Failed, Some("x"));
    assert_eq!(db.purge_completed(), 1);
    let mut left: Vec<i64> = db.get_recent_queue_entries(10).iter().map(|e| e.id).collect();
    left.sort();
    assert_eq!(left, vec![b, c]);
}

#[test]
fn reset_stale_uploading() {
    let mut db = open_test_db();
    let id1 = db.enqueue("/photos/g.jpg", None, None, None).unwrap();
    let id2 = db.enqueue("/photos/h.jpg", None, None, None).unwrap();

    // A crash leaves both marked as uploading.
    db.update_queue_status(id1, &QueueStatus::Uploading, None);
    db.update_queue_status(id2, &QueueStatus::Uploading, None);

    let stats = db.get_queue_stats();
    assert_eq!(stats.uploading, 2);
    assert_eq!(stats.pending, 0);

    let count = db.reset_stale_uploading();
    assert_eq!(count, 2);

    let stats = db.get_queue_stats();
    assert_eq!(stats.uploading, 0);
    assert_eq!(stats.pending, 2);
}

#[test]
fn retry_count_increments_on_pending_retry() {
    let mut db = open_test_db();
    let id = db.enqueue("/photos/retry.jpg", None, None, None).unwrap();

    // Claimed and failed, then returned for another try.
    db.update_queue_status(id, &QueueStatus::Uploading, None);
    db.update_queue_status(id, &QueueStatus::Pending, Some("timeout"));

    let entries = db.get_recent_queue_entries(10);
    let entry = entries.iter().find(|e| e.id == id).unwrap();
    assert_eq!(entry.retry_count, 1);
}

#[test]
fn queue_stats_default_zeroes() {
    let db = open_test_db();
    let stats = db.get_queue_stats();
    assert_eq!(stats.pending, 0);
    assert_eq!(stats.uploading, 0);
    assert_eq!(stats.failed, 0);
    assert_eq!(stats.completed, 0);
}

// Loading rows

#[test]
fn sound_rows_are_loaded() {
    let db = Database::from_rows(
        vec![("schema_version".to_string(), "3".to_string())],
        vec![folder_row(1, "/a"), folder_row(2, "/b")],
        vec![upload_row(1, "/a/x.jpg", "h1")],
        vec![queue_row(1, "/a/y.jpg", QueueStatus::Pending)],
    )
    .ok()
    .unwrap();
    assert_eq!(db.get_schema_version(), 3);
    assert_eq!(db.get_folders().len(), 2);
    assert!(db.is_file_uploaded("h1"));
    assert_eq!(db.get_queue_stats().pending, 1);
}

#[test]
fn unsound_rows_are_refused() {
    let twice = Database::from_rows(
        vec![],
        vec![folder_row(1, "/a"), folder_row(2, "/a")],
        vec![],
        vec![],
    );
    assert!(matches!(twice, Err(DbError::Corrupt)));
    let same_id = Database::from_rows(
        vec![],
        vec![],
        vec![],
        vec![
            queue_row(1, "/a", QueueStatus::Pending),
            queue_row(1, "/b", QueueStatus::Pending),
        ],
    );
    assert!(matches!(same_id, Err(DbError::Corrupt)));
}

#[test]
fn rows_are_given_back() {
    let mut db = open_test_db();
    let folder = db.add_folder("/a", Some("A"), false).ok().unwrap();
    let entry = db.enqueue("/a/y.jpg", Some("h2"), Some(7), Some(folder)).ok().unwrap();
    db.record_upload("/a/x.jpg", "h1", 5, 6, None, "h1-x.jpg", "").ok().unwrap();
    db.set_config_value("k", "v");
    let rows = db.into_rows();
    assert_eq!(rows.folders[0].path, "/a");
    assert_eq!(rows.queue[0].id, entry);
    assert_eq!(rows.uploaded[0].file_hash, "h1");
    let again = Database::from_rows(rows.config, rows.folders, rows.uploaded, rows.queue)
        .ok()
        .unwrap();
    assert_eq!(again.get_config_value("k"), Some("v".to_string()));
    assert_eq!(again.get_folder(folder).unwrap().label, Some("A".to_string()));
    assert!(again.is_file_uploaded("h1"));
    assert_eq!(again.get_queue_stats().pending, 1);
}

// Stored names

#[test]
fn names_read_back() {
    for m in [WatchMode::Native, WatchMode::Poll] {
        assert_eq!(WatchMode::from_str(m.as_str()), m);
    }
    for m in [
        AlbumMode::NoAlbum,
        AlbumMode::Folder,
        AlbumMode::Subfolder,
        AlbumMode::Date,
        AlbumMode::Fixed,
    ] {
        assert_eq!(AlbumMode::from_str(m.as_str()), m);
    }
    for p in [PostUpload::Keep, PostUpload::Trash, PostUpload::Delete] {
        assert_eq!(PostUpload::from_str(p.as_str()), p);
    }
    for s in [
        QueueStatus::Pending,
        QueueStatus::Uploading,
        QueueStatus::Failed,
        QueueStatus::Completed,
    ] {
        assert_eq!(QueueStatus::from_str(s.as_str()), s);
    }
    assert_eq!(AlbumMode::NoAlbum.as_str(), "none");
    assert_eq!(AlbumMode::from_str("?"), AlbumMode::NoAlbum);
    assert_eq!(PostUpload::from_str("?"), PostUpload::Keep);
    assert_eq!(QueueStatus::from_str("?"), QueueStatus::Pending);
    assert_eq!(WatchMode::from_str("?"), WatchMode::Native);
}

// The store over the tables

#[test]
fn store_claims_and_completes() {
    let mut store = DbStore::new(open_test_db());
    let id = store
        .enqueue(NewQueueEntry {
            file_path: "/a.jpg".to_string(),
            file_hash: Some("h".to_string()),
            file_size: Some(10),
            folder_id: None,
        })
        .unwrap();
    let claimed = store.dequeue_pending(5).unwrap();
    assert_eq!(claimed.len(), 1);
    assert_eq!(claimed[0].id, id);
    assert_eq!(claimed[0].file_size, Some(10));
    store
        .record_upload("/a.jpg", "h", 10, 7, "asset", "device", "")
        .unwrap();
    store.mark_completed(id, Some("asset")).unwrap();
    assert!(store.is_file_uploaded("h").unwrap());
    assert!(store.is_file_uploaded_fast_path("/a.jpg", 10, 7).unwrap());
    let stats = store.get_queue_stats().unwrap();
    assert_eq!((stats.completed, stats.total), (1, 1));
    assert!(store.get_folder(1).unwrap().is_none());
}

#[test]
fn store_reports_a_missing_folder() {
    let mut store = DbStore::new(open_test_db());
    let r = store.enqueue(NewQueueEntry {
        file_path: "/a.jpg".to_string(),
        file_hash: None,
        file_size: None,
        folder_id: Some(3),
    });
    assert_eq!(r.unwrap_err().message, DbError::ForeignKey.message());
}

#[test]
fn stored_times_are_read() {
    let fallback = Timestamp { secs: 5, nanos: 6 };
    let mut row = queue_row(1, "/a.jpg", QueueStatus::Completed);
    row.queued_at = "2023-06-15T14:30:00+00:00".to_string();
    row.completed_at = Some("no time".to_string());
    row.file_size = Some(-1);
    let e = present(&row, fallback);
    assert_eq!(e.queued_at, Timestamp { secs: 1_686_839_400, nanos: 0 });
    assert_eq!(e.completed_at, None);
    assert_eq!(e.status, "completed");
    let mut other = queue_row(2, "/b.jpg", QueueStatus::Pending);
    other.queued_at = "".to_string();
    assert_eq!(present(&other, fallback).queued_at, fallback);
}
