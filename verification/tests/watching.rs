//! Filters, write checks, watchers, devices, the watched folders and scans.

use immichsync::app::scan::{
    file_to_queue, scan_folder, scan_ignores_online, ScanEntry, ScanFolder, ScanOutcome, ScanRun,
};
use immichsync::app::watching::{
    compute_watch_drift, default_folder, default_target, folder_filter, missing_folders,
    register_folder, resolve_folder_id, warn_missing_folder_once, watch_targets, DiskPath,
    FolderMap,
};
use immichsync::db::{AlbumMode, PostUpload, WatchMode, WatchedFolder};
use immichsync::watch::device::{
    device_event, drive_letters_from_mask, volume_change, DeviceData, DeviceEvent,
    DBT_DEVICEARRIVAL, DBT_DEVICEREMOVECOMPLETE, DBT_DEVTYP_VOLUME, WM_DEVICECHANGE,
};
use immichsync::watch::engine::{EngineHealth, WatchEngine, WatchError};
use immichsync::watch::filter::{
    clean_patterns, is_online_file, parse_patterns_json, patterns_to_json, FileFacts, FileFilter,
};
use immichsync::watch::folder::{
    decide_event, ChangeKind, CheckAction, CheckEvent, EventDecision, WatchEvent, WriteCheck,
};
use immichsync::watch::network;
use immichsync::watch::network::{
    choose_mode, health_after, probe_outcome, probe_reported, HealthCheck, NetworkWatcher,
    ProbeSettings,
};

/// What the filesystem says of a file of `size` bytes.
fn file(size: u64) -> Option<FileFacts> {
    Some(FileFacts { size, online: false })
}

// Which files are uploaded

#[test]
fn test_image_extensions_included() {
    let filter = FileFilter::new();
    for ext in &["jpg", "jpeg", "png", "heic", "cr3", "arw", "dng"] {
        assert!(
            filter.should_include(&format!("/tmp/f.{}", ext), file(2048)),
            "Expected '{}' to be included",
            ext
        );
    }
}

#[test]
fn test_video_extensions_included() {
    let filter = FileFilter::new();
    for ext in &["mp4", "mov", "mkv", "m4v", "mts"] {
        assert!(
            filter.should_include(&format!("/tmp/f.{}", ext), file(2048)),
            "Expected '{}' to be included",
            ext
        );
    }
}

#[test]
fn test_excluded_names() {
    let filter = FileFilter::new();
    assert!(
        !filter.should_include("/tmp/Thumbs.db", file(2048)),
        "Thumbs.db should be excluded"
    );
    assert!(!filter.should_include("/tmp/.DS_Store", file(2048)));
    assert!(!filter.should_include("/tmp/desktop.ini", file(2048)));
}

#[test]
fn test_min_size_exclusion() {
    let filter = FileFilter::new();
    // 512 bytes are below the default of 1 KB.
    assert!(!filter.should_include("/tmp/f.jpg", file(512)));
    assert!(filter.should_include("/tmp/f.jpg", file(1024)));
}

#[test]
fn test_unknown_extension_excluded() {
    let filter = FileFilter::new();
    assert!(!filter.should_include("/tmp/f.txt", file(2048)));
}

#[test]
fn test_custom_include_pattern() {
    let filter = FileFilter::new().with_include_patterns(vec!["**/vacation*".to_string()]);
    assert!(filter.should_include("/tmp/d/vacation_photo.jpg", file(2048)));
    assert!(!filter.should_include("/tmp/d/birthday_photo.jpg", file(2048)));
}

#[test]
fn test_custom_exclude_pattern() {
    let filter = FileFilter::new().with_exclude_patterns(vec!["**/thumbnails/**".to_string()]);
    assert!(!filter.should_include("/tmp/d/thumbnails/img.jpg", file(2048)));
}

#[test]
fn test_custom_min_size() {
    let filter = FileFilter::new().with_min_size(5000);
    assert!(!filter.should_include("/tmp/f.jpg", file(2048)));
    assert!(filter.should_include("/tmp/f.jpg", file(6000)));
}

#[test]
fn extensions_are_compared_in_lower_case() {
    let filter = FileFilter::default();
    assert!(filter.should_include("/tmp/F.JPG", file(2048)));
    assert!(filter.accepts_path("/tmp/F.JPG"));
    assert!(!filter.accepts_path("/tmp/jpg"));
}

#[test]
fn files_that_cannot_be_looked_at_are_left_out() {
    assert!(!FileFilter::new().should_include("/tmp/f.jpg", None));
}

#[test]
fn placeholders_are_left_out_on_request() {
    let online = Some(FileFacts { size: 2048, online: true });
    assert!(FileFilter::new().should_include("/tmp/f.jpg", online));
    assert!(!FileFilter::new()
        .with_ignore_online_files(true)
        .should_include("/tmp/f.jpg", online));
    assert!(is_online_file(0x1000));
    assert!(is_online_file(0x1020));
    assert!(!is_online_file(0x20));
}

#[test]
fn the_trash_is_never_uploaded() {
    let filter = FileFilter::new().with_include_patterns(vec!["**".to_string()]);
    assert!(!filter.should_include("/photos/.immichsync-trash/a.jpg", file(2048)));
    assert!(filter.should_include("/photos/a.jpg", file(2048)));
}

// Pattern lists

#[test]
fn parse_patterns_json_none() {
    assert!(parse_patterns_json(None).is_empty());
}

#[test]
fn parse_patterns_json_empty_string() {
    assert!(parse_patterns_json(Some("")).is_empty());
    assert!(parse_patterns_json(Some("   ")).is_empty());
}

#[test]
fn parse_patterns_json_valid_array() {
    let v = parse_patterns_json(Some(r#"["*.jpg","**/raw/**"]"#));
    assert_eq!(v, vec!["*.jpg".to_string(), "**/raw/**".to_string()]);
}

#[test]
fn parse_patterns_json_trims_and_drops_empty() {
    let v = parse_patterns_json(Some(r#"["  *.jpg  ","",""]"#));
    assert_eq!(v, vec!["*.jpg".to_string()]);
}

#[test]
fn parse_patterns_json_malformed_returns_empty() {
    // What is no JSON list gives an empty list.
    assert!(parse_patterns_json(Some("not json")).is_empty());
    assert!(parse_patterns_json(Some(r#"{"k":"v"}"#)).is_empty());
}

#[test]
fn patterns_to_json_roundtrip() {
    let patterns = vec!["*.jpg".to_string(), "**/raw/**".to_string()];
    let json = patterns_to_json(&patterns).expect("should serialize");
    assert_eq!(json, r#"["*.jpg","**/raw/**"]"#);
    let parsed = parse_patterns_json(Some(&json));
    assert_eq!(parsed, patterns);
}

#[test]
fn patterns_to_json_empty_yields_none() {
    assert!(patterns_to_json(&vec![]).is_none());
    assert!(patterns_to_json(&vec!["".to_string(), "  ".to_string()]).is_none());
}

#[test]
fn test_default_empty_patterns_pass_through() {
    // Without patterns the filter is the default one.
    let filter = FileFilter::new()
        .with_include_patterns(vec![])
        .with_exclude_patterns(vec![]);
    assert!(filter.should_include("/tmp/f.jpg", file(2048)));
}

#[test]
fn test_include_and_exclude_combined() {
    // Everything under photos/ is included, but for thumbnails/.
    let filter = FileFilter::new()
        .with_include_patterns(vec!["**/photos/**".to_string()])
        .with_exclude_patterns(vec!["**/thumbnails/**".to_string()]);

    assert!(filter.should_include("/tmp/d/photos/vacation.jpg", file(2048)));
    assert!(!filter.should_include("/tmp/d/photos/thumbnails/vacation.jpg", file(2048)));
    assert!(!filter.should_include("/tmp/d/other.jpg", file(2048)));
}

#[test]
fn test_invalid_glob_pattern_does_not_panic() {
    // `[` opens a character class that is never closed: no pattern.
    let filter = FileFilter::new()
        .with_include_patterns(vec!["[invalid".to_string()])
        .with_exclude_patterns(vec!["also[invalid".to_string()]);

    // No include pattern is left, so every path is included.
    assert!(filter.should_include("/tmp/f.jpg", file(2048)));
}

// Filesystem events

#[test]
fn events_are_filtered() {
    let f = FileFilter::new();
    let decide = |kind, path: &str, is_file| {
        decide_event(kind, path, Some(".probe"), is_file, &f, file(2048))
    };
    assert_eq!(decide(ChangeKind::Created, "/d/a.jpg", true), EventDecision::CheckWrite);
    assert_eq!(decide(ChangeKind::Modified, "/d/a.jpg", true), EventDecision::CheckWrite);
    assert_eq!(decide(ChangeKind::Other, "/d/a.jpg", true), EventDecision::Ignore);
    assert_eq!(decide(ChangeKind::Created, "/d/a.jpg", false), EventDecision::Ignore);
    assert_eq!(decide(ChangeKind::Created, "/d/a.txt", true), EventDecision::Ignore);
    assert_eq!(decide(ChangeKind::Created, "/d/.probe", true), EventDecision::ProbeSeen);
}

/// Runs a check. `sizes` are the sizes that the looks find, in turn.
fn write_complete(path: &str, sizes: &[Option<u64>], readable: bool) -> (Option<WatchEvent>, u64) {
    let mut check = WriteCheck::start(path);
    let mut looks = 0;
    let mut now = 0;
    loop {
        let event = match check.action() {
            CheckAction::Finish => break,
            CheckAction::MeasureTime => CheckEvent::Elapsed { ms: now },
            CheckAction::ReadSize => {
                let size = sizes[looks % sizes.len()];
                looks += 1;
                CheckEvent::Size(size)
            }
            CheckAction::Wait { ms } => {
                now += ms;
                CheckEvent::Waited
            }
            CheckAction::OpenFile => CheckEvent::Opened(readable),
        };
        check.resume(event);
    }
    (check.report(), now)
}

#[test]
fn test_write_complete_sends_file_ready() {
    let file_path = "/tmp/d/test_image.jpg";
    let (event, waited) = write_complete(file_path, &[Some(4096)], true);

    match event.expect("Expected an event") {
        WatchEvent::FileReady(p) => assert_eq!(p, file_path),
        other => panic!("Expected FileReady, got {:?}", other),
    }
    assert_eq!(waited, 500);
}

#[test]
fn test_write_complete_missing_file() {
    let (event, _) = write_complete("/nonexistent/path/image.jpg", &[None], true);
    assert!(event.is_none(), "No event expected for missing file");
}

#[test]
fn a_file_that_grows_is_checked_again() {
    let (event, waited) = write_complete("/d/a.jpg", &[Some(1), Some(2), Some(2), Some(2)], true);
    assert!(matches!(event, Some(WatchEvent::FileReady(_))));
    // Settle, back off, settle.
    assert_eq!(waited, 1500);
}

#[test]
fn a_locked_file_times_out() {
    let (event, waited) = write_complete("/d/a.jpg", &[Some(1)], false);
    match event {
        Some(WatchEvent::Error(m)) => {
            assert_eq!(m, "Write-completion timeout: \"/d/a.jpg\"")
        }
        other => panic!("Expected Error, got {:?}", other),
    }
    assert!(waited >= 30_000);
    assert_eq!(file_to_queue(&WatchEvent::Error("x".to_string())), None);
    assert_eq!(
        file_to_queue(&WatchEvent::FileReady("/d/a.jpg".to_string())),
        Some("/d/a.jpg".to_string())
    );
    assert_eq!(file_to_queue(&WatchEvent::FileRemoved("/d/a.jpg".to_string())), None);
}

// The engine

#[test]
fn test_engine_starts_empty() {
    let engine = WatchEngine::new();
    assert_eq!(engine.watcher_count(), 0);
}

#[test]
fn test_event_receiver_can_only_be_taken_once() {
    let mut engine = WatchEngine::new();
    assert!(engine.event_receiver());
    assert!(!engine.event_receiver());
}

#[test]
fn test_add_and_remove_folder() {
    let dir = "/tmp/dir";
    let mut engine = WatchEngine::new();

    engine
        .add_folder(dir, Some(dir), false, Ok(()))
        .expect("add_folder should succeed");

    assert_eq!(engine.watcher_count(), 1);
    assert!(engine.is_watching(dir, Some(dir)));

    engine
        .remove_folder(dir, Some(dir))
        .expect("remove_folder should succeed");

    assert_eq!(engine.watcher_count(), 0);
    assert!(!engine.is_watching(dir, Some(dir)));
}

#[test]
fn test_add_duplicate_returns_error() {
    let dir = "/tmp/dir";
    let mut engine = WatchEngine::new();

    engine
        .add_folder(dir, Some(dir), false, Ok(()))
        .expect("first add should succeed");

    let result = engine.add_folder(dir, Some(dir), false, Ok(()));
    assert!(
        matches!(result, Err(WatchError::AlreadyWatching(_))),
        "Expected AlreadyWatching error"
    );
    assert_eq!(
        result.unwrap_err().message(),
        "Path is already being watched: \"/tmp/dir\""
    );
}

#[test]
fn test_remove_not_watching_returns_error() {
    let dir = "/tmp/dir";
    let mut engine = WatchEngine::new();
    let result = engine.remove_folder(dir, Some(dir));
    assert!(
        matches!(result, Err(WatchError::NotWatching(_))),
        "Expected NotWatching error"
    );
    assert_eq!(result.unwrap_err().message(), "Path is not being watched: \"/tmp/dir\"");
}

#[test]
fn test_stop_all_clears_watchers() {
    let mut engine = WatchEngine::new();

    engine.add_folder("/tmp/dir1", Some("/tmp/dir1"), false, Ok(())).unwrap();
    engine.add_folder("/tmp/dir2", Some("/tmp/dir2"), false, Ok(())).unwrap();

    assert_eq!(engine.watcher_count(), 2);
    engine.stop_all();
    assert_eq!(engine.watcher_count(), 0);
}

#[test]
fn a_watcher_that_does_not_start_is_not_kept() {
    let mut engine = WatchEngine::new();
    let e = engine
        .add_folder("/d", None, true, Err("no handle".to_string()))
        .unwrap_err();
    assert_eq!(e.message(), "Failed to start watcher for \"/d\": no handle");
    assert_eq!(engine.watcher_count(), 0);
}

#[test]
fn health_is_the_worst_of_the_watchers() {
    let mut engine = WatchEngine::new();
    assert_eq!(engine.health(), EngineHealth::Healthy);
    engine.add_folder("/a", None, false, Ok(())).unwrap();
    engine.add_folder("/b", None, false, Ok(())).unwrap();
    engine.set_health("/a", EngineHealth::Degraded);
    assert_eq!(engine.health(), EngineHealth::Degraded);
    engine.set_health("/b", EngineHealth::Failed);
    assert_eq!(engine.health(), EngineHealth::Failed);
    assert_eq!(engine.watched_paths().len(), 2);
    assert!(engine.check_free("/c", None).is_ok());
}

// Network folders

#[test]
fn native_watching_needs_a_working_probe() {
    assert_eq!(choose_mode(HealthCheck::Reported), network::WatchMode::Native);
    assert_eq!(choose_mode(HealthCheck::Silent), network::WatchMode::Poll);
    assert_eq!(choose_mode(HealthCheck::NotWritten), network::WatchMode::Poll);
    let paths = vec!["/n/a.jpg".to_string(), "/n/.probe".to_string()];
    assert!(probe_reported(ChangeKind::Created, &paths, ".probe"));
    assert!(!probe_reported(ChangeKind::Other, &paths, ".probe"));
    assert!(!probe_reported(ChangeKind::Created, &paths, ".other"));
}

#[test]
fn network_watchers_poll_where_they_must() {
    let probe = ProbeSettings { file_name: ".probe".to_string(), timeout_ms: 10_000 };
    let mut w = NetworkWatcher::new("\\\\nas\\photos", 30_000, probe);
    assert_eq!(w.mode(), None);
    assert_eq!(w.probe_timeout(), 10_000);
    w.start(HealthCheck::Silent, Ok(())).unwrap();
    assert_eq!(w.mode(), Some(network::WatchMode::Poll));
    assert_eq!(w.probe_timeout(), 37_000);
    assert_eq!(w.path(), "\\\\nas\\photos");
    assert_eq!(w.probe_path(), "\\\\nas\\photos\\.probe");
    w.stop();
    assert_eq!(w.mode(), None);
    assert_eq!(w.start(HealthCheck::Reported, Err("x".to_string())), Err("x".to_string()));
    assert_eq!(w.mode(), None);
}

#[test]
fn probe_results() {
    assert_eq!(probe_outcome("/n/.probe", Ok(()), true), Ok(true));
    assert_eq!(probe_outcome("/n/.probe", Ok(()), false), Ok(false));
    assert_eq!(
        probe_outcome("/n/.probe", Err("denied".to_string()), false),
        Err("Probe write to \"/n/.probe\" failed: denied".to_string())
    );
}

// Devices

#[test]
fn test_drive_letters_from_mask() {
    // Bit 2 is C, bit 4 is E.
    let letters = drive_letters_from_mask(0b10100);
    assert_eq!(letters, vec!['C', 'E']);
}

#[test]
fn test_drive_letters_from_mask_empty() {
    let letters = drive_letters_from_mask(0);
    assert!(letters.is_empty());
}

#[test]
fn every_letter_has_a_bit() {
    assert_eq!(drive_letters_from_mask(u32::MAX).len(), 26);
    assert_eq!(drive_letters_from_mask(1 << 25), vec!['Z']);
    assert!(drive_letters_from_mask(1 << 26).is_empty());
}

#[test]
fn volume_messages() {
    let volume = DeviceData { device_type: DBT_DEVTYP_VOLUME, unit_mask: 0b1000 };
    let c = volume_change(WM_DEVICECHANGE, DBT_DEVICEARRIVAL, Some(volume)).unwrap();
    assert!(c.arrived);
    assert_eq!(c.letters, vec!['D']);
    let r = volume_change(WM_DEVICECHANGE, DBT_DEVICEREMOVECOMPLETE, Some(volume)).unwrap();
    assert!(!r.arrived);
    assert!(volume_change(WM_DEVICECHANGE, 7, Some(volume)).is_none());
    assert!(volume_change(1, DBT_DEVICEARRIVAL, Some(volume)).is_none());
    assert!(volume_change(WM_DEVICECHANGE, DBT_DEVICEARRIVAL, None).is_none());
    let port = DeviceData { device_type: 3, unit_mask: 0b1000 };
    assert!(volume_change(WM_DEVICECHANGE, DBT_DEVICEARRIVAL, Some(port)).is_none());
    assert_eq!(
        device_event(true, 'D', true),
        DeviceEvent::DeviceArrived { drive_letter: 'D', has_dcim: true }
    );
    assert_eq!(
        device_event(false, 'D', true),
        DeviceEvent::DeviceRemoved { drive_letter: 'D' }
    );
}

// The watched folders

fn make_folder(id: i64, path: &str, enabled: bool) -> WatchedFolder {
    WatchedFolder {
        id,
        path: path.to_string(),
        label: None,
        enabled,
        watch_mode: WatchMode::Native,
        poll_interval_secs: 30,
        album_mode: AlbumMode::NoAlbum,
        album_name: None,
        include_patterns: None,
        exclude_patterns: None,
        post_upload: PostUpload::Keep,
        ignore_online_files: true,
        auto_added: false,
        created_at: "2026-05-26T00:00:00Z".to_string(),
        updated_at: "2026-05-26T00:00:00Z".to_string(),
    }
}

fn there(path: &str) -> DiskPath {
    DiskPath { exists: true, canonical: Some(path.to_string()) }
}

fn missing() -> DiskPath {
    DiskPath { exists: false, canonical: None }
}

#[test]
fn missing_path_does_not_register_as_drift() {
    let existing = "/tmp/existing";
    let folders = vec![
        make_folder(1, existing, true),
        make_folder(2, "C:\\does-not-exist-49\\fake\\Pictures", true),
    ];
    let on_disk = vec![there(existing), missing()];
    let engine_paths = vec![existing.to_string()];

    assert!(
        compute_watch_drift(&folders, &on_disk, &engine_paths).is_none(),
        "drift should be None when the only DB-vs-engine diff is a missing-path row"
    );
    assert_eq!(
        missing_folders(&folders, &on_disk),
        vec!["C:\\does-not-exist-49\\fake\\Pictures".to_string()]
    );
}

#[test]
fn newly_added_real_folder_registers_as_drift() {
    let folders = vec![make_folder(1, "/tmp/d/a", true), make_folder(2, "/tmp/d/b", true)];
    let on_disk = vec![there("/tmp/d/a"), there("/tmp/d/b")];

    // The engine watches `a` only.
    let engine_paths = vec!["/tmp/d/a".to_string()];

    let drift =
        compute_watch_drift(&folders, &on_disk, &engine_paths).expect("real add should drift");
    assert_eq!(drift.added.len(), 1);
    assert_eq!(drift.removed.len(), 0);
    assert_eq!(drift.added[0], "/tmp/d/b");
}

#[test]
fn disabled_folder_is_treated_as_absent() {
    let p = "/tmp/d";
    let on_disk = vec![there(p)];
    let engine_paths = vec![p.to_string()];

    let enabled_only = vec![make_folder(1, p, true)];
    assert!(compute_watch_drift(&enabled_only, &on_disk, &engine_paths).is_none());

    // With the row disabled, the folder is to be removed.
    let disabled = vec![make_folder(1, p, false)];
    let drift = compute_watch_drift(&disabled, &on_disk, &engine_paths)
        .expect("disabling a watched folder should drift");
    assert_eq!(drift.removed.len(), 1);
    assert_eq!(drift.added.len(), 0);
}

#[test]
fn warn_missing_folder_once_dedups_by_path() {
    let mut seen = Vec::new();
    let p = "C:\\fake\\Pictures";
    // The first call warns.
    assert!(warn_missing_folder_once(&mut seen, p));
    assert_eq!(seen.len(), 1);
    // The second call for the same path does nothing.
    assert!(!warn_missing_folder_once(&mut seen, p));
    assert_eq!(seen.len(), 1);
    // Another path is warned of.
    assert!(warn_missing_folder_once(&mut seen, "D:\\fake\\Videos"));
    assert_eq!(seen.len(), 2);
}

#[test]
fn enabled_folders_that_exist_are_watched() {
    let mut poll = make_folder(3, "/c", true);
    poll.watch_mode = WatchMode::Poll;
    poll.exclude_patterns = Some(r#"["**/raw/**"]"#.to_string());
    let folders = vec![make_folder(1, "/a", true), make_folder(2, "/b", false), poll];
    let on_disk = vec![there("/a"), there("/b"), there("/c")];
    let targets = watch_targets(&folders, &on_disk);
    let ids: Vec<i64> = targets.iter().map(|t| t.folder_id).collect();
    assert_eq!(ids, vec![1, 3]);
    assert!(!targets[0].is_network);
    assert!(targets[1].is_network);
    assert!(!targets[1].filter.should_include("/c/raw/x.jpg", file(2048)));
    assert!(targets[1].filter.should_include("/c/x.jpg", file(2048)));
    let online = Some(FileFacts { size: 2048, online: true });
    assert!(!folder_filter(&folders[0]).should_include("/a/x.jpg", online));
}

#[test]
fn pictures_are_the_default_folder() {
    assert_eq!(default_folder(true, Some("/home/u/Pictures"), true), Some("/home/u/Pictures".to_string()));
    assert_eq!(default_folder(false, Some("/home/u/Pictures"), true), None);
    assert_eq!(default_folder(true, Some("/home/u/Pictures"), false), None);
    assert_eq!(default_folder(true, None, true), None);
    let t = default_target(4, "/home/u/Pictures");
    assert_eq!((t.folder_id, t.path.as_str(), t.is_network), (4, "/home/u/Pictures", false));
}

#[test]
fn a_file_belongs_to_its_watched_folder() {
    let mut engine = WatchEngine::new();
    let mut map = FolderMap::new();
    let a = default_target(1, "/photos");
    let b = default_target(2, "/photos/trip");
    register_folder(&mut engine, &mut map, &a, Some("/photos"), Ok(())).unwrap();
    register_folder(&mut engine, &mut map, &b, None, Err("x".to_string())).unwrap_err();
    assert_eq!(engine.watcher_count(), 1);
    assert_eq!(map.get("/photos"), Some(1));
    assert_eq!(map.get("/photos/trip"), None);
    assert_eq!(resolve_folder_id("/photos/x/a.jpg", Some("/photos/x/a.jpg"), &map), Some(1));
    assert_eq!(resolve_folder_id("/elsewhere/a.jpg", None, &map), None);
}

#[test]
fn a_path_is_known_by_its_components() {
    let mut seen = Vec::new();
    assert!(warn_missing_folder_once(&mut seen, "/a/b"));
    assert!(!warn_missing_folder_once(&mut seen, "/a/b/"));
    assert!(warn_missing_folder_once(&mut seen, "/a/c"));
    let mut engine = WatchEngine::new();
    engine.add_folder("/a/b", None, false, Ok(())).unwrap();
    assert!(engine.is_watching("/a/b/", None));
    assert!(engine.add_folder("/a/b/", None, false, Ok(())).is_err());
    let mut map = FolderMap::new();
    map.insert("/a/b/", 3);
    assert_eq!(map.get("/a/b"), Some(3));
    let folders = vec![make_folder(1, "/a/b/", true)];
    let on_disk = vec![DiskPath { exists: true, canonical: None }];
    assert!(compute_watch_drift(&folders, &on_disk, &engine.watched_paths()).is_none());
    assert_eq!(engine.remove_folder("/a/b/", None).unwrap(), "/a/b");
    assert_eq!(engine.watcher_count(), 0);
}

// Scans

#[test]
fn a_scan_offers_every_file_once() {
    let mut run = ScanRun::start(vec![
        scan_folder("/p", 7, None),
        ScanFolder {
            path: "/q".to_string(),
            id: 8,
            ignore_online: false,
            include_patterns: None,
            exclude_patterns: None,
        },
    ]);
    let mut seen: Vec<(String, Option<i64>)> = Vec::new();
    while let Some(dir) = run.next_dir() {
        let entries: Vec<ScanEntry> = match dir.as_str() {
            "/p" => vec![
                entry("/p/a.jpg", false, false),
                entry("/p/online.jpg", false, true),
                entry("/p/sub", true, false),
                entry("/p/.immichsync-trash", true, false),
                entry("/p/notes.txt", false, false),
            ],
            "/p/sub" => vec![entry("/p/sub/b.mp4", false, false)],
            "/q" => vec![entry("/q/online.jpg", false, true)],
            other => panic!("unexpected directory {other}"),
        };
        for f in run.take_entries(&entries) {
            let id = run.folder_id();
            run.report(if f.ends_with("a.jpg") { ScanOutcome::Skipped } else { ScanOutcome::Enqueued });
            seen.push((f, id));
        }
    }
    seen.sort();
    assert_eq!(
        seen,
        vec![
            ("/p/a.jpg".to_string(), Some(7)),
            ("/p/sub/b.mp4".to_string(), Some(7)),
            ("/q/online.jpg".to_string(), Some(8)),
        ]
    );
    let c = run.counts();
    assert_eq!((c.scanned, c.enqueued, c.skipped, c.errors), (3, 2, 1, 0));
    assert!(scan_ignores_online(None));
    assert!(!scan_ignores_online(Some(false)));
}

#[test]
fn a_scan_keeps_to_the_patterns_of_the_folder() {
    let mut f = make_folder(3, "/p", true);
    f.include_patterns = Some("[\"**/*.jpg\"]".to_string());
    f.exclude_patterns = Some("[\"**/private/**\"]".to_string());
    f.ignore_online_files = false;
    let scanned = scan_folder("/p", 3, Some(f));
    assert!(!scanned.ignore_online);
    let mut run = ScanRun::start(vec![scanned]);
    assert_eq!(run.next_dir().as_deref(), Some("/p"));
    let found = run.take_entries(&vec![
        entry("/p/a.jpg", false, false),
        entry("/p/b.mp4", false, false),
        entry("/p/private/c.jpg", false, false),
        entry("/p/online.jpg", false, true),
    ]);
    assert_eq!(found, vec!["/p/a.jpg", "/p/online.jpg"]);
}

fn entry(path: &str, is_dir: bool, online: bool) -> ScanEntry {
    ScanEntry {
        path: path.to_string(),
        is_dir,
        is_file: !is_dir,
        facts: if is_dir { None } else { Some(FileFacts { size: 4096, online }) },
    }
}

#[test]
fn a_test_shows_how_a_watcher_does() {
    assert_eq!(health_after(&Ok(true)), EngineHealth::Healthy);
    assert_eq!(health_after(&Ok(false)), EngineHealth::Degraded);
    assert_eq!(health_after(&Err("no space".to_string())), EngineHealth::Failed);
}

#[test]
fn patterns_are_trimmed() {
    let list: Vec<String> = [" *.jpg ", "", "  ", "a"].iter().map(|s| s.to_string()).collect();
    assert_eq!(clean_patterns(&list), vec!["*.jpg", "a"]);
}
