//! The server's interface, updates, the windows, the running application and
//! its start.

use immichsync::api::albums::{add_assets_to_album, after_create, after_list, assets_path, Album, AlbumStep};
use immichsync::api::assets;
use immichsync::api::assets::{
    check_duplicates, file_error, mime_from_extension, upload_asset, upload_result, FileStep,
};
use immichsync::api::client::{check_status, map_status_error, ApiError, ImmichClient};
use immichsync::api::server::is_pong;
use immichsync::app::state::{
    url_display, window_arg, window_follow_up, AppCommand, AppState, WindowFollowUp, WindowKind,
    WindowOpenTracker,
};
use immichsync::clock::Timestamp;
use immichsync::config::Config;
use immichsync::db::{AlbumMode, Database, DbError, PostUpload, QueueStatus};
use immichsync::startup::{
    arg_after, check_for_update_on_startup, checks_for_update, dialog_args, ends_after_install,
    needs_wizard, parse_args, run_window_subprocess, start_step, update_dialog_args, wants_client,
    window_program, wizard_ended, InstallState, Launch, LookAction, LookEvent, LookPhase, StartStep,
    WindowRequest,
};
use immichsync::ui::first_run::{default_pictures_folder, WizardApp, WizardStep};
use immichsync::ui::install;
use immichsync::ui::install::{
    do_portable, install_exe_rename_dance, installed_config, InstallAction, InstallApp,
    InstallEvent, InstallPhase, InstallResult,
};
use immichsync::ui::notifications::Notifications;
use immichsync::ui::settings::{
    album_choice, apply_post_upload_to_existing, at_least, existing_label, post_choice,
    test_connection, test_status_text, ExistingAction, SettingsApp, TestOutcome,
};
use immichsync::ui::trash_log::{
    format_size, load_trash_entries, megabytes, summary, trash_entry, TrashEntry, TrashedFacts,
};
use immichsync::ui::tray::{
    action_for_id, generate_icon_rgba, icon_for_state, status_text_for_state, tooltip_for_state,
    MenuEntry, TrayAction, TrayApp, TrayError, TrayState,
};
use immichsync::ui::update;
use immichsync::ui::update::{DialogExit, DialogState, DownloadProgress, UpdateApp};
use immichsync::ui::upload_log::{load_entries, visible_entries, LogFilter};
use immichsync::updater::{
    apply_update, check_for_update, check_interval_from_hours, download_and_apply, download_path,
    effective_repo, evaluate_release, github_api_url, old_exe_path, startup_delay, ApplyAction,
    ApplyPhase, GitHubAsset, GitHubRelease, UpdateCheckResult, UpdateError, UpdateInfo,
};
use immichsync::upload::queue::QueueStats;
use immichsync::watch::engine::EngineHealth;

fn args(list: &[&str]) -> Vec<String> {
    list.iter().map(|s| s.to_string()).collect()
}

// The server's interface

#[test]
fn statuses_are_errors() {
    let body = || Some("b".to_string());
    assert!(check_status(200, body()).is_ok());
    assert!(check_status(201, None).is_ok());
    assert!(matches!(map_status_error(400, body()), ApiError::BadRequest(m) if m == "b"));
    assert!(matches!(map_status_error(401, body()), ApiError::Auth(m) if m == "b"));
    assert!(matches!(map_status_error(404, body()), ApiError::NotFound(m) if m == "b"));
    assert!(matches!(map_status_error(429, body()), ApiError::RateLimit));
    assert_eq!(
        map_status_error(503, body()).message(),
        "server error: HTTP 503 Service Unavailable: b"
    );
    assert_eq!(map_status_error(418, body()).message(), "unexpected error: HTTP 418: b");
    assert_eq!(
        check_status(302, None).unwrap_err().message(),
        "unexpected error: HTTP 302: <unreadable body>"
    );
    assert_eq!(ApiError::Network("x".to_string()).message(), "network error: x");
    assert_eq!(ApiError::Auth("x".to_string()).message(), "authentication failed: x");
    assert_eq!(ApiError::NotFound("x".to_string()).message(), "resource not found: x");
    assert_eq!(ApiError::BadRequest("x".to_string()).message(), "bad request: x");
    assert_eq!(ApiError::RateLimit.message(), "rate limited by server");
}

#[test]
fn clients() {
    let c = ImmichClient::new("https://photos.example.com//", "key").unwrap();
    assert_eq!(c.url("/api/server/ping"), "https://photos.example.com/api/server/ping");
    assert_eq!(c.api_key(), "key");
    assert_eq!(c.timeout_secs(), 3600);
    assert_eq!(c.throttle_ms(65536), 0);
    let limited = ImmichClient::with_bandwidth_limit("https://x", "key", 64, 300).unwrap();
    // 64 KiB at 64 KiB a second.
    assert_eq!(limited.throttle_ms(65536), 1000);
    assert_eq!(limited.throttle_ms(100), 1);
    assert_eq!(limited.timeout_secs(), 300);
    assert_eq!(
        ImmichClient::new("https://x", "a\nb").unwrap_err().message(),
        "unexpected error: invalid API key characters: failed to parse header value"
    );
    assert!(is_pong("pong"));
    assert!(!is_pong("PONG"));
}

#[test]
fn uploads_are_described() {
    let c = ImmichClient::new("https://x/", "key").unwrap();
    let t = Timestamp { secs: 1_686_839_400, nanos: 0 };
    let f = upload_asset(&c, "/p/A.JPG", "abc-A.JPG", "immichsync-box", t, t).unwrap();
    assert_eq!(f.url, "https://x/api/assets");
    assert_eq!(f.file_name, "A.JPG");
    assert_eq!(f.mime, "image/jpeg");
    let fields: Vec<(&str, &str)> = f.fields.iter().map(|f| (f.name, f.value.as_str())).collect();
    assert_eq!(
        fields,
        vec![
            ("deviceAssetId", "abc-A.JPG"),
            ("deviceId", "immichsync-box"),
            ("fileCreatedAt", "2023-06-15T14:30:00+00:00"),
            ("fileModifiedAt", "2023-06-15T14:30:00+00:00"),
            ("isFavorite", "false"),
        ]
    );
    let never = Timestamp { secs: i64::MAX, nanos: 0 };
    assert!(upload_asset(&c, "/p/a.jpg", "d", "i", never, t).is_none());
    assert!(upload_result(200, "id".to_string()).is_duplicate);
    assert!(!upload_result(201, "id".to_string()).is_duplicate);
    assert_eq!(
        file_error(FileStep::Stat, "x").message(),
        "unexpected error: failed to stat file: x"
    );
    assert_eq!(
        file_error(FileStep::Open, "x").message(),
        "unexpected error: failed to open file: x"
    );
}

#[test]
fn kinds_of_files() {
    assert_eq!(mime_from_extension("/a.heif"), "image/heic");
    assert_eq!(mime_from_extension("/a.MOV"), "video/quicktime");
    assert_eq!(mime_from_extension("/a.m2ts"), "video/mp2t");
    assert_eq!(mime_from_extension("/a.cr3"), "application/octet-stream");
    assert_eq!(mime_from_extension("/a"), "application/octet-stream");
}

#[test]
fn rejected_assets_are_duplicates() {
    let r = check_duplicates(vec![
        assets::BulkCheckResult {
            id: "1".to_string(),
            action: "reject".to_string(),
            asset_id: Some("x".to_string()),
        },
        assets::BulkCheckResult {
            id: "2".to_string(),
            action: "accept".to_string(),
            asset_id: None,
        },
    ]);
    assert!(r[0].exists);
    assert_eq!(r[0].asset_id, Some("x".to_string()));
    assert!(!r[1].exists);
    assert_eq!(r[1].id, "2");
}

#[test]
fn an_asset_goes_to_the_named_album() {
    let albums = vec![
        Album { id: "1".to_string(), album_name: "A".to_string() },
        Album { id: "2".to_string(), album_name: "B".to_string() },
        Album { id: "3".to_string(), album_name: "B".to_string() },
    ];
    assert!(matches!(
        after_list(&albums, "B", "x"),
        AlbumStep::Add { album_id, asset_id } if album_id == "2" && asset_id == "x"
    ));
    assert!(matches!(after_list(&albums, "C", "x"), AlbumStep::Create { name } if name == "C"));
    assert!(matches!(
        after_create(&albums[0], "x"),
        AlbumStep::Add { album_id, .. } if album_id == "1"
    ));
    assert_eq!(assets_path("7"), "/api/albums/7/assets");
    assert!(add_assets_to_album(&args(&["x"])));
    assert!(!add_assets_to_album(&vec![]));
}

// Updates

fn release(tag: &str, asset: &str) -> GitHubRelease {
    GitHubRelease {
        tag_name: tag.to_string(),
        body: Some("notes".to_string()),
        assets: vec![
            GitHubAsset {
                name: "readme.txt".to_string(),
                browser_download_url: "u0".to_string(),
                size: 1,
            },
            GitHubAsset {
                name: asset.to_string(),
                browser_download_url: "u1".to_string(),
                size: 2,
            },
        ],
    }
}

fn info() -> UpdateInfo {
    UpdateInfo {
        current_version: "0.1.0".to_string(),
        new_version: "0.2.0".to_string(),
        download_url: "u".to_string(),
        size: 5 * 1024 * 1024,
        changelog: "".to_string(),
    }
}

#[test]
fn a_newer_release_is_an_update() {
    match evaluate_release(&release("v1.10.0", "ImmichSync.EXE"), "1.9.0").unwrap() {
        UpdateCheckResult::Available(i) => {
            assert_eq!(i.current_version, "1.9.0");
            assert_eq!(i.new_version, "1.10.0");
            assert_eq!(i.download_url, "u1");
            assert_eq!(i.size, 2);
            assert_eq!(i.changelog, "notes");
        }
        other => panic!("unexpected {other:?}"),
    }
    let same = evaluate_release(&release("v1.9.0", "immichsync.exe"), "1.9.0");
    assert!(matches!(same, Ok(UpdateCheckResult::UpToDate)));
    let older = evaluate_release(&release("v1.2.0", "immichsync.exe"), "1.9.0");
    assert!(matches!(older, Ok(UpdateCheckResult::UpToDate)));
}

#[test]
fn bad_releases_are_refused() {
    let e = evaluate_release(&release("latest", "immichsync.exe"), "1.0.0").unwrap_err();
    assert_eq!(e.message(), "invalid version in release tag: latest");
    let e = evaluate_release(&release("v2.0.0", "immichsync.exe"), "x").unwrap_err();
    assert_eq!(e.message(), "invalid version in release tag: x");
    let e = evaluate_release(&release("v2.0.0", "other"), "1.0.0").unwrap_err();
    assert_eq!(e.message(), "no matching asset 'immichsync.exe' in release");
    assert!(matches!(
        check_for_update(Err(UpdateError::Network("x".to_string())), "1.0.0"),
        UpdateCheckResult::Failed(m) if m == "network error: x"
    ));
    assert!(matches!(
        check_for_update(Ok(release("v2.0.0", "other")), "1.0.0"),
        UpdateCheckResult::Failed(m) if m.starts_with("no matching asset")
    ));
    assert_eq!(UpdateError::File("x".to_string()).message(), "file error: x");
}

#[test]
fn update_settings() {
    assert_eq!(
        github_api_url("a/b"),
        "https://api.github.com/repos/a/b/releases/latest"
    );
    assert_eq!(effective_repo(""), "gumbees/immichsync");
    assert_eq!(effective_repo("a/b"), "a/b");
    assert_eq!(check_interval_from_hours(2).as_secs(), 7200);
    assert_eq!(check_interval_from_hours(0).as_secs(), u64::MAX);
    assert_eq!(startup_delay().as_secs(), 30);
    assert_eq!(download_path("/i/immichsync.exe"), "/i/immichsync.exe.new");
    assert_eq!(old_exe_path("/i/immichsync.exe"), "/i/immichsync.exe.old");
    let p = apply_update("/i/immichsync.exe");
    assert_eq!(p.old_exe, "/i/immichsync.exe.old");
    assert_eq!(p.version_file, "/i/version.txt");
}

#[test]
fn the_update_dialog() {
    let mut d = UpdateApp::new(info());
    assert_eq!(
        d.prompt_lines(),
        vec![
            "A new version of ImmichSync is available: v0.2.0",
            "You are currently running v0.1.0",
            "Download size: 5.0 MB",
        ]
    );
    d.check_download_state(DownloadProgress::Applied);
    assert_eq!(d.state, DialogState::Prompt);
    d.start_download();
    d.check_download_state(DownloadProgress::Loading { downloaded: 1, total: 2 });
    assert_eq!(d.state, DialogState::Downloading);
    d.check_download_state(DownloadProgress::Failed);
    assert_eq!(d.state, DialogState::Error);
    assert_eq!(d.error_msg, "Download or installation failed. Check logs for details.");
    d.start_download();
    d.check_download_state(DownloadProgress::Applied);
    assert_eq!(d.state, DialogState::ReadyToRestart);
    assert_eq!(
        d.ready_line(),
        "ImmichSync v0.2.0 has been installed. Restart to use the new version."
    );
    assert_eq!(UpdateApp::progress_line(1024 * 1024, 2 * 1024 * 1024), "1.0 MB / 2.0 MB");
    assert_eq!(UpdateApp::progress_line(1024 * 1024, 0), "1.0 MB downloaded");
    assert_eq!(update::exit_code(DialogExit::Skip), 1);
    assert_eq!(update::exit_code(DialogExit::Restart), 0);
}

// The install dialog

fn drive(app: &mut InstallApp, copies: &mut Vec<Result<(), String>>) -> Vec<String> {
    let mut log = vec![];
    loop {
        let action = app.action();
        let event = match &action {
            InstallAction::Finish => break,
            InstallAction::CopyExe | InstallAction::RenameAndCopy => {
                InstallEvent::Copied(copies.remove(0))
            }
            InstallAction::FindInstalled => InstallEvent::Found(Ok("P".to_string())),
            _ => InstallEvent::Done,
        };
        log.push(format!("{action:?}"));
        app.resume(event);
    }
    log
}

#[test]
fn an_installation() {
    let mut app = InstallApp::new(false, None);
    assert_eq!(app.heading(), "Install ImmichSync");
    assert_eq!(app.version_line(), None);
    let log = drive(&mut app, &mut vec![Ok(())]);
    assert_eq!(
        log,
        vec![
            "CopyExe",
            "FindInstalled",
            "CreateDesktopShortcut { target: \"P\" }",
            "CreateStartMenuShortcut { target: \"P\" }",
            "SetAutostart { enabled: true }",
            "SaveConfig",
            "WriteRegistry",
            "Relaunch { program: \"P\" }",
        ]
    );
    assert_eq!(app.result(), InstallResult::Installed);
    assert_eq!(install::exit_code(InstallResult::Installed), 0);
    assert_eq!(install::exit_code(InstallResult::Portable), 1);
}

#[test]
fn an_update_leaves_autostart_alone() {
    let mut app = InstallApp::new(true, Some("0.0.9".to_string()));
    assert_eq!(app.heading(), "Update ImmichSync");
    assert_eq!(app.version_line(), Some("Updating from v0.0.9 to v0.1.0".to_string()));
    app.options.desktop_shortcut = false;
    let log = drive(&mut app, &mut vec![Err("locked".to_string()), Ok(())]);
    assert_eq!(
        log,
        vec![
            "StopOthers",
            "Wait { ms: 500 }",
            "CopyExe",
            "RenameAndCopy",
            "FindInstalled",
            "CreateStartMenuShortcut { target: \"P\" }",
            "SaveConfig",
            "WriteRegistry",
            "Relaunch { program: \"P\" }",
        ]
    );
    let unknown = InstallApp::new(true, Some("unknown".to_string()));
    assert_eq!(unknown.version_line(), Some("Updating to v0.1.0".to_string()));
}

#[test]
fn a_failed_installation_can_be_tried_again() {
    let mut app = InstallApp::new(false, None);
    drive(&mut app, &mut vec![Err("a".to_string()), Err("b".to_string())]);
    assert_eq!(app.phase, InstallPhase::Failed);
    assert_eq!(app.status, "Install failed: b");
    assert_eq!(app.result(), InstallResult::Portable);
    app.do_install();
    assert_eq!(app.phase, InstallPhase::Copying);
    app.resume(InstallEvent::Copied(Ok(())));
    app.resume(InstallEvent::Found(Err("x".to_string())));
    assert_eq!(app.status, "Could not determine install path: x");
}

#[test]
fn installed_configurations() {
    let mut app = InstallApp::new(false, None);
    app.options.autostart = false;
    let mut c = Config::default();
    c.ui.portable_mode = true;
    let i = installed_config(c, app.options);
    assert!(!i.ui.portable_mode);
    assert!(!i.ui.start_with_windows);
    assert!(do_portable(i).ui.portable_mode);
    let p = install_exe_rename_dance("/i/immichsync.exe");
    assert_eq!(p.old_exe, "/i/immichsync.exe.old");
    assert_eq!(p.destination, "/i/immichsync.exe");
    assert_eq!(p.version_file, Some("/i/version.txt".to_string()));
}

// The wizard

#[test]
fn the_wizard_configures_a_server() {
    let mut w = WizardApp::new(Config::default(), "/home/u/Pictures".to_string());
    assert!(w.may_proceed());
    w.next();
    assert_eq!(w.step, WizardStep::ServerConfig);
    assert!(!w.may_proceed());
    w.next();
    assert_eq!(w.step, WizardStep::ServerConfig);
    w.server_url = "https://x".to_string();
    w.api_key = "k".to_string();
    w.next();
    w.back();
    w.next();
    w.next();
    assert!(w.finish().is_none());
    w.enable_autostart = false;
    w.next();
    let r = w.finish().unwrap();
    assert_eq!(r.config.server.url, "https://x");
    assert_eq!(r.config.server.api_key, "k");
    assert!(!r.config.ui.start_with_windows);
    assert!(!r.autostart);
    assert_eq!(r.folder, Some("/home/u/Pictures".to_string()));
    w.watch_folder = "".to_string();
    assert_eq!(w.finish().unwrap().folder, None);
    assert_eq!(default_pictures_folder(None), "");
}

// The settings

#[test]
fn unedited_settings_change_nothing() {
    let mut c = Config::default();
    c.server.url = "https://x".to_string();
    c.upload.timeout_secs = 17;
    let before = format!("{c:?}");
    let mut w = SettingsApp::new(c, vec![]);
    w.save_config();
    assert_eq!(format!("{:?}", w.config), before);
    w.concurrency = 9;
    w.log_level = "debug".to_string();
    w.autostart = false;
    w.save_config();
    assert_eq!(w.config.upload.concurrency, 9);
    assert_eq!(w.config.advanced.log_level, "debug");
    assert!(!w.config.ui.start_with_windows);
    assert_eq!(w.config.upload.timeout_secs, 17);
}

#[test]
fn folders_are_edited_and_saved() {
    let mut db = Database::new();
    let mut w = SettingsApp::new(Config::default(), vec![]);
    w.add_folder(&mut db, "/a").unwrap();
    w.add_folder(&mut db, "/b").unwrap();
    w.add_folder(&mut db, "/a").unwrap();
    assert_eq!(w.folders.len(), 2);
    assert_eq!(db.get_folders().len(), 2);
    w.choose_album(0, "fixed");
    w.choose_post_upload(0, "trash");
    let id = w.folders[0].id;
    w.set_apply_existing(id, true);
    let cards = w.show_watch_folders_tab();
    assert_eq!(cards[0].path, "/a");
    assert_eq!(cards[0].album.label, "Fixed Album");
    assert_eq!(cards[0].album_name, Some("".to_string()));
    assert_eq!(cards[0].post_upload.label, "Move to Trash");
    assert_eq!(cards[0].existing, Some(("Also trash already-uploaded files", true)));
    assert_eq!(cards[1].album.code, "none");
    assert_eq!(cards[1].existing, None);
    w.folders[0].album_name = Some("Best".to_string());
    w.save_folders_at(&mut db, "2026-01-01 00:00:00");
    let stored = db.get_folder(id).unwrap();
    assert_eq!(stored.path, "/a");
    assert_eq!(stored.album_mode, AlbumMode::Fixed);
    assert_eq!(stored.album_name, Some("Best".to_string()));
    assert_eq!(stored.post_upload, PostUpload::Trash);
    assert_eq!(stored.updated_at, "2026-01-01 00:00:00");
    assert_eq!(w.folders_to_apply().len(), 1);
    w.choose_post_upload(0, "keep");
    assert!(w.apply_existing.is_empty());
    assert!(w.folders_to_apply().is_empty());
    w.remove_folder(&mut db, id).unwrap();
    assert_eq!(w.folders.len(), 1);
    assert_eq!(db.get_folders().len(), 1);
    w.save_folders(&mut db);
    assert_eq!(db.get_folders().len(), 1);
}

#[test]
fn a_fixed_album_without_a_name_gets_an_empty_one() {
    let mut db = Database::new();
    let mut w = SettingsApp::new(Config::default(), vec![]);
    w.add_folder(&mut db, "/a").unwrap();
    w.add_folder(&mut db, "/b").unwrap();
    w.folders[0].album_mode = AlbumMode::Fixed;
    assert_eq!(w.folders[0].album_name, None);
    w.show_watch_folders_tab();
    assert_eq!(w.folders[0].album_name, Some("".to_string()));
    assert_eq!(w.folders[1].album_name, None);
    let id = w.folders[0].id;
    w.save_folders_at(&mut db, "2026-01-01 00:00:00");
    assert_eq!(db.get_folder(id).unwrap().album_name, Some("".to_string()));
}

#[test]
fn a_folder_in_use_is_not_removed() {
    let mut db = Database::new();
    let mut w = SettingsApp::new(Config::default(), vec![]);
    w.add_folder(&mut db, "/a").unwrap();
    let id = w.folders[0].id;
    db.enqueue("/a/x.jpg", None, None, Some(id)).unwrap();
    assert_eq!(w.remove_folder(&mut db, id), Err(DbError::ForeignKey));
    assert_eq!(db.get_folders().len(), 1);
    // The database holds a folder that this window does not show.
    let mut other = SettingsApp::new(Config::default(), vec![]);
    assert_eq!(other.add_folder(&mut db, "/a"), Err(DbError::DuplicatePath));
    assert!(other.folders.is_empty());
}

#[test]
fn choices_and_numbers() {
    assert_eq!(album_choice(AlbumMode::Date).label, "Date (YYYY-MM)");
    assert_eq!(album_choice(AlbumMode::Subfolder).code, "subfolder");
    assert_eq!(post_choice(PostUpload::Delete).label, "Delete");
    assert_eq!(existing_label(PostUpload::Delete), Some("Also delete already-uploaded files"));
    assert_eq!(existing_label(PostUpload::Keep), None);
    assert_eq!(at_least(-3, 5), 5);
    assert_eq!(at_least(4, 5), 5);
    assert_eq!(at_least(60, 5), 60);
    let paths = args(&["/a/x.jpg"]);
    assert_eq!(
        apply_post_upload_to_existing(PostUpload::Trash, &paths),
        Some((ExistingAction::Trash, paths.clone()))
    );
    assert_eq!(
        apply_post_upload_to_existing(PostUpload::Delete, &paths),
        Some((ExistingAction::Delete, paths.clone()))
    );
    assert_eq!(apply_post_upload_to_existing(PostUpload::Keep, &paths), None);
}

#[test]
fn connections_are_tested() {
    assert_eq!(test_connection("", "k").unwrap_err(), "Enter URL and API key first");
    assert_eq!(test_connection("https://x", "").unwrap_err(), "Enter URL and API key first");
    assert!(test_connection("https://x", "k").is_ok());
    assert!(test_connection("https://x", "\u{1}").unwrap_err().starts_with("Invalid config: "));
    assert_eq!(test_status_text(&TestOutcome::Answered(true)), "Connected!");
    assert_eq!(
        test_status_text(&TestOutcome::Answered(false)),
        "Server responded but not ready"
    );
    assert_eq!(test_status_text(&TestOutcome::Failed("x".to_string())), "Failed: x");
    assert_eq!(test_status_text(&TestOutcome::NotRun("x".to_string())), "Runtime error: x");
}

// The logs

#[test]
fn the_upload_log() {
    let mut db = Database::new();
    let a = db.enqueue_at("/p/a.jpg", None, None, None, "t1").unwrap();
    let b = db.enqueue_at("/p/b.jpg", None, None, None, "t2").unwrap();
    db.update_queue_status_at(a, &QueueStatus::Completed, None, "t3");
    db.update_queue_status_at(b, &QueueStatus::Failed, Some("x"), "t4");
    let log = load_entries(&db.get_recent_queue_entries(200));
    assert_eq!(log.len(), 2);
    let done = visible_entries(&log, LogFilter::Completed);
    assert_eq!(done.len(), 1);
    assert_eq!(done[0].filename, "a.jpg");
    assert_eq!(done[0].timestamp, "t3");
    let failed = visible_entries(&log, LogFilter::Failed);
    assert_eq!(failed[0].filename, "b.jpg");
    assert_eq!(failed[0].timestamp, "t4");
    assert_eq!(failed[0].error, Some("x".to_string()));
    assert_eq!(visible_entries(&log, LogFilter::All).len(), 2);
}

#[test]
fn the_trash_log() {
    let facts = |size, at: &str| Some(TrashedFacts { size, modified: Some(at.to_string()) });
    let root = "/p/.immichsync-trash";
    let found: Vec<TrashEntry> = vec![
        trash_entry("/p/.immichsync-trash/a.jpg", root, "/p", facts(1024, "2026-01-01")),
        trash_entry("/p/.immichsync-trash/s/b.jpg", root, "/p", facts(2048, "2026-01-03")),
        trash_entry("/elsewhere/c.jpg", root, "/", None),
    ];
    assert_eq!(found[1].relative_path, "s/b.jpg");
    assert_eq!(found[1].folder, "p");
    assert_eq!(found[2].relative_path, "c.jpg");
    assert_eq!((found[2].size, found[2].folder.as_str()), (0, "/"));
    let ordered = load_trash_entries(&found);
    let names: Vec<&str> = ordered.iter().map(|e| e.relative_path.as_str()).collect();
    assert_eq!(names, vec!["s/b.jpg", "a.jpg", "c.jpg"]);
    assert_eq!(summary(&ordered), "3 files \u{2014} 3.0 KB");
    assert_eq!(summary(&vec![found[0].clone()]), "1 file \u{2014} 1.0 KB");
}

/// A size as floating-point arithmetic shows it.
fn shown(bytes: u64) -> String {
    let b = bytes as f64;
    if bytes < 1024 {
        format!("{bytes} B")
    } else if bytes < 1024 * 1024 {
        format!("{:.1} KB", b / 1024.0)
    } else if bytes < 1024 * 1024 * 1024 {
        format!("{:.1} MB", b / (1024.0 * 1024.0))
    } else {
        format!("{:.2} GB", b / (1024.0 * 1024.0 * 1024.0))
    }
}

#[test]
fn sizes() {
    for bytes in [
        0,
        1,
        1023,
        1024,
        1075,
        1076,
        1536,
        256 * 5,
        1024 * 1024 - 1,
        1024 * 1024,
        1_887_436,
        3_355_443,
        1024 * 1024 * 1024 - 1,
        1024 * 1024 * 1024,
        5_368_709_121,
        123_456_789_012,
    ] {
        assert_eq!(format_size(bytes), shown(bytes), "{bytes}");
    }
    for k in 0..4096u64 {
        let bytes = k * 419;
        assert_eq!(format_size(bytes), shown(bytes), "{bytes}");
        let large = k * 1_073_741 + 1_000_000_000;
        assert_eq!(format_size(large), shown(large), "{large}");
    }
    assert_eq!(megabytes(1_572_864), "1.5");
}

// The tray

#[test]
fn the_tray_shows_its_state() {
    let syncing = TrayState::Syncing { current: 1, total: 3 };
    assert_eq!(tooltip_for_state(&syncing), "ImmichSync \u{2014} Uploading 1/3");
    assert_eq!(status_text_for_state(&syncing), "Uploading 1/3 files\u{2026}");
    assert_eq!(tooltip_for_state(&TrayState::Idle), "ImmichSync \u{2014} Idle");
    assert_eq!(tooltip_for_state(&TrayState::Error("x".to_string())), "ImmichSync \u{2014} Error: x");
    assert_eq!(status_text_for_state(&TrayState::Offline), "Server offline");
    assert_eq!(status_text_for_state(&TrayState::Paused), "Paused");
    let mut t = TrayApp::new();
    t.set_server_status("photos.example.com", false);
    t.set_update_available(Some("2.0.0"));
    t.update_state(TrayState::Paused);
    let menu = t.menu();
    assert_eq!(menu.len(), 19);
    let find = |wanted: &str| {
        menu.iter()
            .find_map(|e| match e {
                MenuEntry::Item { id: Some(id), text, enabled } if *id == wanted => {
                    Some((text.clone(), *enabled))
                }
                _ => None,
            })
            .unwrap()
    };
    assert_eq!(find("pause"), ("Pause Sync".to_string(), false));
    assert_eq!(find("resume"), ("Resume Sync".to_string(), true));
    assert_eq!(find("update_available"), ("Update Available (v2.0.0)!".to_string(), true));
    assert_eq!(find("restart_to_update"), ("Restart to Update".to_string(), false));
    assert!(matches!(
        &menu[16],
        MenuEntry::Item { text, .. } if text == "Server: photos.example.com [offline]"
    ));
    assert_eq!(t.tooltip(), "ImmichSync \u{2014} Paused");
    t.set_restart_to_update(Some("2.0.0"));
    assert!(t.icon().len() == 1024);
}

#[test]
fn ids_name_actions() {
    assert_eq!(action_for_id("pause"), Some(TrayAction::Pause));
    assert_eq!(action_for_id("resume"), Some(TrayAction::Resume));
    assert_eq!(action_for_id("upload_now"), Some(TrayAction::UploadNow));
    assert_eq!(action_for_id("settings"), Some(TrayAction::OpenSettings));
    assert_eq!(action_for_id("about"), Some(TrayAction::About));
    assert_eq!(action_for_id("view_log"), Some(TrayAction::ViewLog));
    assert_eq!(action_for_id("view_trash"), Some(TrayAction::ViewTrash));
    assert_eq!(action_for_id("check_updates"), Some(TrayAction::CheckForUpdates));
    assert_eq!(action_for_id("update_available"), Some(TrayAction::OpenUpdateDialog));
    assert_eq!(action_for_id("restart_to_update"), Some(TrayAction::RestartToUpdate));
    assert_eq!(action_for_id("quit"), Some(TrayAction::Quit));
    assert_eq!(action_for_id("?"), None);
}

#[test]
fn icons_are_discs() {
    let v = generate_icon_rgba(1, 2, 3);
    assert_eq!(v.len(), 1024);
    for y in 0..16usize {
        for x in 0..16usize {
            let (dx, dy) = (x as f64 - 7.5, y as f64 - 7.5);
            let inside = (dx * dx + dy * dy).sqrt() <= 7.0;
            let at = (y * 16 + x) * 4;
            let expected = if inside { [1, 2, 3, 255] } else { [0, 0, 0, 0] };
            assert_eq!(v[at..at + 4], expected, "{x} {y}");
        }
    }
    let green = icon_for_state(&TrayState::Idle);
    assert_eq!(green[(8 * 16 + 8) * 4..(8 * 16 + 8) * 4 + 4], [0x4c, 0xaf, 0x50, 255]);
}

#[test]
fn notifications_follow_the_settings() {
    let n = Notifications::new(&Config::default());
    let one = n.notify_upload_complete(1).unwrap();
    assert_eq!(one.title, "Upload Complete");
    assert_eq!(one.body, "1 file uploaded successfully.");
    assert_eq!(n.notify_upload_complete(3).unwrap().body, "3 files uploaded successfully.");
    assert!(n.notify_upload_complete(0).is_none());
    assert_eq!(n.notify_error("x").unwrap().title, "ImmichSync Error");
    let quiet = Notifications { enabled: false, notify_on_complete: true };
    assert!(quiet.notify_upload_complete(3).is_none());
    assert!(quiet.notify_error("x").is_none());
    assert!(quiet.show_toast_raw("a", "b").is_none());
    let errors_only = Notifications { enabled: true, notify_on_complete: false };
    assert!(errors_only.notify_upload_complete(3).is_none());
    assert!(errors_only.show_toast_raw("a", "b").is_some());
}

// The running application

fn config() -> Config {
    let mut c = Config::default();
    c.server.url = "https://photos.example.com".to_string();
    c.server.api_key = "k".to_string();
    c
}

fn stats(pending: u64, uploading: u64, completed: u64) -> Option<QueueStats> {
    Some(QueueStats { pending, uploading, completed, failed: 0, total: pending + uploading + completed })
}

fn server_line(app: &AppState) -> String {
    match &app.tray().menu()[16] {
        MenuEntry::Item { text, .. } => text.clone(),
        MenuEntry::Separator => panic!("expected a line"),
    }
}

#[test]
fn starting_shows_the_server() {
    let mut app = AppState::new(config(), true, 0);
    let plan = app.init(0);
    assert_eq!(plan.update_check.unwrap().delay_secs, 30);
    assert!(plan.prune_logs && plan.clean_trash);
    assert_eq!(server_line(&app), "Server: photos.example.com [connected]");
    let mut bare = AppState::new(Config::default(), false, 0);
    bare.init(0);
    assert_eq!(bare.tray().tooltip(), "ImmichSync \u{2014} Error: Server not configured");
    assert_eq!(url_display("http://x"), "x");
    assert_eq!(url_display("https://http://x"), "x");
}

#[test]
fn pausing_holds_the_tray() {
    let mut app = AppState::new(config(), true, 0);
    app.init(0);
    assert!(matches!(app.handle_tray_action(TrayAction::Pause), AppCommand::PausePipeline));
    assert_eq!(app.tray().tooltip(), "ImmichSync \u{2014} Paused");
    app.update_tray_stats(2000, EngineHealth::Healthy, stats(1, 1, 0));
    assert_eq!(app.tray().tooltip(), "ImmichSync \u{2014} Paused");
    assert!(matches!(app.handle_tray_action(TrayAction::Resume), AppCommand::ResumePipeline));
    assert_eq!(app.tray().tooltip(), "ImmichSync \u{2014} Idle");
}

#[test]
fn a_window_is_shown_once() {
    let mut app = AppState::new(config(), true, 0);
    assert!(matches!(
        app.handle_tray_action(TrayAction::OpenSettings),
        AppCommand::OpenWindow(WindowKind::Settings)
    ));
    assert!(matches!(app.handle_tray_action(TrayAction::OpenSettings), AppCommand::Nothing));
    app.window_closed(WindowKind::Settings);
    assert!(matches!(
        app.handle_tray_action(TrayAction::OpenSettings),
        AppCommand::OpenWindow(WindowKind::Settings)
    ));
    let out = app.handle_actions(&vec![TrayAction::About, TrayAction::Quit, TrayAction::ViewLog]);
    assert!(out.quit);
    assert_eq!(out.commands.len(), 2);
    assert_eq!(window_arg(WindowKind::TrashLog), "trash-log");
    let mut t = WindowOpenTracker::new();
    assert!(!t.is_open(WindowKind::Update));
    t.set(WindowKind::Update, true);
    assert!(t.is_open(WindowKind::Update));
    assert!(!t.is_open(WindowKind::About));
}

#[test]
fn the_tray_follows_the_queue() {
    let mut app = AppState::new(config(), true, 0);
    app.init(0);
    assert!(!app.stats_due(1999));
    assert!(app.stats_due(2000));
    assert!(app.update_tray_stats(2000, EngineHealth::Healthy, stats(2, 1, 0)).is_none());
    assert_eq!(app.tray().tooltip(), "ImmichSync \u{2014} Uploading 1/3");
    // The queue runs empty: the user is told.
    let toast = app.update_tray_stats(4000, EngineHealth::Healthy, stats(0, 0, 3)).unwrap();
    assert_eq!(toast.body, "3 files uploaded successfully.");
    assert_eq!(app.tray().tooltip(), "ImmichSync \u{2014} Idle");
    app.update_tray_stats(6000, EngineHealth::Failed, stats(1, 0, 3));
    assert_eq!(
        app.tray().tooltip(),
        "ImmichSync \u{2014} Error: one or more watchers are offline"
    );
    app.update_tray_stats(8000, EngineHealth::Degraded, stats(0, 0, 3));
    assert_eq!(
        app.tray().tooltip(),
        "ImmichSync \u{2014} Error: watcher degraded \u{2014} auto-restart in progress"
    );
    app.poll_ping_result(false);
    assert_eq!(server_line(&app), "Server: photos.example.com [offline]");
    app.update_tray_stats(10000, EngineHealth::Healthy, stats(0, 0, 3));
    assert_eq!(app.tray().tooltip(), "ImmichSync \u{2014} Offline");
    // Uploads show that the server can be reached.
    app.update_tray_stats(12000, EngineHealth::Healthy, stats(1, 0, 3));
    assert_eq!(app.tray().tooltip(), "ImmichSync \u{2014} Uploading 0/1");
}

#[test]
fn periodic_work() {
    let mut app = AppState::new(config(), true, 0);
    app.init(0);
    let p = app.tick(1999);
    assert!(!p.ping && !p.reconcile && !p.prune_logs && !p.clean_trash);
    assert!(p.update_check.is_none());
    assert!(app.tick(2000).reconcile);
    assert!(!app.tick(2001).reconcile);
    assert!(app.tick(30_000).ping);
    // One ping at a time.
    assert!(!app.tick(90_000).ping);
    assert!(!app.maybe_schedule_ping(90_000));
    app.poll_ping_result(true);
    assert!(app.maybe_schedule_ping(90_000));
    let hours = app.config().advanced.update_check_interval_hours as u64;
    let late = app.tick(hours * 3_600_000);
    assert!(late.prune_logs && late.clean_trash);
    assert_eq!(late.update_check.unwrap().delay_secs, 0);
}

#[test]
fn updates_are_downloaded_and_offered() {
    let mut app = AppState::new(config(), true, 0);
    app.init(0);
    assert!(matches!(app.handle_tray_action(TrayAction::RestartToUpdate), AppCommand::Nothing));
    assert!(matches!(app.open_update_dialog(), AppCommand::Nothing));
    let r = app.poll_update_check(UpdateCheckResult::Available(info()));
    assert_eq!(r.toast.unwrap().body, "Downloading ImmichSync v0.2.0...");
    assert_eq!(r.download.unwrap().new_version, "0.2.0");
    // A download that fails leaves the offer.
    let failed = app.poll_update_download(Err("x".to_string())).unwrap();
    assert_eq!(failed.body, "Update download failed: x");
    assert!(matches!(
        app.handle_tray_action(TrayAction::OpenUpdateDialog),
        AppCommand::ShowUpdate(i) if i.new_version == "0.2.0"
    ));
    let ready = app.poll_update_download(Ok("0.2.0".to_string())).unwrap();
    assert_eq!(ready.body, "ImmichSync v0.2.0 is ready \u{2014} restart to apply.");
    assert!(matches!(app.handle_tray_action(TrayAction::RestartToUpdate), AppCommand::Restart));
    let none = app.poll_update_check(UpdateCheckResult::UpToDate);
    assert!(none.toast.is_none() && none.download.is_none());
    assert_eq!(app.schedule_update_check(5, false).delay_secs, 0);
}

#[test]
fn another_server_needs_another_client() {
    let mut app = AppState::new(config(), true, 0);
    app.init(0);
    assert!(!app.apply_new_config(config()));
    let mut other = config();
    other.server.url = "https://other".to_string();
    assert!(app.apply_new_config(other));
    app.client_recreated(true);
    assert_eq!(server_line(&app), "Server: other [connected]");
    let mut none = config();
    none.server.api_key = "".to_string();
    assert!(!app.apply_new_config(none));
}

// The start

#[test]
fn arguments() {
    assert!(matches!(
        parse_args(&args(&["p", "--window", "log"])),
        Launch::Window { kind } if kind == "log"
    ));
    assert!(matches!(
        parse_args(&args(&["p", "--uninstall", "--silent"])),
        Launch::Uninstall { silent: true }
    ));
    assert!(matches!(
        parse_args(&args(&["p", "--uninstall"])),
        Launch::Uninstall { silent: false }
    ));
    assert!(matches!(parse_args(&args(&["p", "--window"])), Launch::Normal));
    assert!(matches!(parse_args(&args(&["p"])), Launch::Normal));
    assert_eq!(arg_after(&args(&["p", "--x", "1", "--x", "2"]), "--x"), Some("1".to_string()));
    assert_eq!(arg_after(&args(&["p", "--x"]), "--x"), None);
}

#[test]
fn windows_are_named() {
    let none = args(&["p"]);
    assert!(matches!(run_window_subprocess("install", &none), WindowRequest::Install));
    assert!(matches!(run_window_subprocess("wizard", &none), WindowRequest::Wizard));
    assert!(matches!(run_window_subprocess("settings", &none), WindowRequest::Settings));
    assert!(matches!(run_window_subprocess("about", &none), WindowRequest::About));
    assert!(matches!(run_window_subprocess("log", &none), WindowRequest::UploadLog));
    assert!(matches!(run_window_subprocess("trash-log", &none), WindowRequest::TrashLog));
    assert!(matches!(run_window_subprocess("?", &none), WindowRequest::Unknown));
    assert!(matches!(run_window_subprocess("update", &none), WindowRequest::UpdateWithoutInfo));
    let mut a = args(&["p"]);
    a.extend(update_dialog_args("/tmp/i.json"));
    assert!(matches!(
        run_window_subprocess("update", &a),
        WindowRequest::Update { info_path } if info_path == "/tmp/i.json"
    ));
    let mut b = args(&["p"]);
    b.extend(dialog_args(&StartStep::OfferUpdate { old_version: "0.0.1".to_string() }));
    assert!(matches!(
        run_window_subprocess("install-update", &b),
        WindowRequest::InstallUpdate { old_version: Some(v) } if v == "0.0.1"
    ));
    assert_eq!(dialog_args(&StartStep::OfferInstall), args(&["--window", "install"]));
    assert!(dialog_args(&StartStep::Continue).is_empty());
}

fn state(installed_exists: bool, version: Option<&str>) -> InstallState {
    InstallState {
        running_installed: Some(false),
        portable: false,
        installed_exists,
        installed_version: version.map(|v| v.to_string()),
    }
}

#[test]
fn what_happens_before_the_program_runs() {
    assert!(matches!(start_step(state(false, None)), StartStep::OfferInstall));
    assert!(matches!(
        start_step(state(true, None)),
        StartStep::OfferUpdate { old_version } if old_version == "unknown"
    ));
    assert!(matches!(
        start_step(state(true, Some("0.0.1"))),
        StartStep::OfferUpdate { old_version } if old_version == "0.0.1"
    ));
    assert!(matches!(start_step(state(true, Some("9.0.0"))), StartStep::Relaunch));
    let portable = InstallState { portable: true, ..state(true, None) };
    assert!(matches!(start_step(portable), StartStep::Continue));
    let installed = InstallState { running_installed: Some(true), ..state(true, None) };
    assert!(matches!(start_step(installed), StartStep::CheckForUpdate));
    let unknown = InstallState { running_installed: None, ..state(true, None) };
    assert!(matches!(start_step(unknown), StartStep::Continue));
    assert!(ends_after_install(Some(0)));
    assert!(!ends_after_install(Some(1)));
    assert!(!ends_after_install(None));
    assert!(checks_for_update(None));
    assert!(!checks_for_update(Some(false)));
    assert!(needs_wizard(&Config::default()));
    assert!(!needs_wizard(&config()));
    assert!(wants_client(&config()));
    assert!(!wants_client(&Config::default()));
}

#[test]
fn windows_run_from_the_installed_program() {
    let installed = Some("/i/immichsync.exe".to_string());
    let running = Some("/r/immichsync.exe".to_string());
    assert_eq!(window_program(installed.clone(), true, running.clone()), installed);
    assert_eq!(window_program(installed, false, running.clone()), running);
    assert_eq!(window_program(None, true, running.clone()), running);
    assert_eq!(window_program(None, false, None), None);
}

#[test]
fn startup_look_relaunches_after_an_update() {
    let mut look = check_for_update_on_startup(Some((true, "me/fork".to_string())));
    match look.action() {
        LookAction::Ask { url } => {
            assert_eq!(url, "https://api.github.com/repos/me/fork/releases/latest");
        }
        _ => panic!("the release is asked for first"),
    }
    look.resume(LookEvent::Checked(UpdateCheckResult::Available(info())));
    match look.action() {
        LookAction::Save { info: saved } => assert_eq!(saved.new_version, info().new_version),
        _ => panic!("a found update is written down"),
    }
    look.resume(LookEvent::Saved(Some("/tmp/info.json".to_string())));
    match look.action() {
        LookAction::Offer { args } => {
            assert_eq!(args, vec!["--window", "update", "--update-info", "/tmp/info.json"]);
        }
        _ => panic!("a found update is offered"),
    }
    look.resume(LookEvent::Closed(Some(0)));
    assert!(matches!(look.action(), LookAction::Relaunch));
}

#[test]
fn startup_look_goes_on_without_an_update() {
    let off = check_for_update_on_startup(Some((false, String::new())));
    assert!(matches!(off.action(), LookAction::GoOn));

    let mut current = check_for_update_on_startup(None);
    match current.action() {
        LookAction::Ask { url } => {
            assert_eq!(url, "https://api.github.com/repos/gumbees/immichsync/releases/latest");
        }
        _ => panic!("updates are looked for where there are no settings"),
    }
    current.resume(LookEvent::Checked(UpdateCheckResult::UpToDate));
    assert!(matches!(current.action(), LookAction::GoOn));

    let mut failed = check_for_update_on_startup(None);
    failed.resume(LookEvent::Checked(UpdateCheckResult::Failed("offline".to_string())));
    assert_eq!(failed.phase, LookPhase::Over);

    let mut unwritten = check_for_update_on_startup(None);
    unwritten.resume(LookEvent::Checked(UpdateCheckResult::Available(info())));
    unwritten.resume(LookEvent::Saved(None));
    assert_eq!(unwritten.phase, LookPhase::Over);

    let mut skipped = check_for_update_on_startup(None);
    skipped.resume(LookEvent::Checked(UpdateCheckResult::Available(info())));
    skipped.resume(LookEvent::Saved(Some("/tmp/info.json".to_string())));
    skipped.resume(LookEvent::Closed(Some(1)));
    assert_eq!(skipped.phase, LookPhase::Over);
}

fn apply_text(action: ApplyAction) -> String {
    match action {
        ApplyAction::Download { url, dest } => format!("download {url} to {dest}"),
        ApplyAction::RemoveIfPresent { path } => format!("remove {path}"),
        ApplyAction::Rename { from, to } => format!("rename {from} to {to}"),
        ApplyAction::Write { path, text } => format!("write {text} to {path}"),
        ApplyAction::Finish => "finish".to_string(),
    }
}

#[test]
fn update_is_downloaded_and_put_in_place() {
    let mut run = download_and_apply(&info(), "/p/immichsync.exe");
    assert_eq!(
        apply_text(run.action()),
        format!("download {} to /p/immichsync.exe.new", info().download_url)
    );
    run.resume(Ok(()));
    assert_eq!(apply_text(run.action()), "remove /p/immichsync.exe.old");
    run.resume(Err(UpdateError::File("in use".to_string())));
    assert_eq!(apply_text(run.action()), "rename /p/immichsync.exe to /p/immichsync.exe.old");
    run.resume(Ok(()));
    assert_eq!(apply_text(run.action()), "rename /p/immichsync.exe.new to /p/immichsync.exe");
    run.resume(Ok(()));
    assert_eq!(
        apply_text(run.action()),
        format!("write {} to /p/version.txt", info().new_version)
    );
    run.resume(Err(UpdateError::File("read-only".to_string())));
    assert_eq!(apply_text(run.action()), "finish");
    assert_eq!(run.phase, ApplyPhase::Applied);
    assert!(run.error.is_none());
}

#[test]
fn update_fails_with_its_download_or_a_renaming() {
    for failing in [0, 2, 3] {
        let mut run = download_and_apply(&info(), "/p/immichsync.exe");
        for _ in 0..failing {
            run.resume(Ok(()));
        }
        run.resume(Err(UpdateError::Network("offline".to_string())));
        assert_eq!(run.phase, ApplyPhase::Failed);
        assert_eq!(apply_text(run.action()), "finish");
        assert_eq!(run.error.unwrap().message(), "network error: offline");
    }
}

#[test]
fn closed_windows_are_followed_up() {
    assert_eq!(window_follow_up(WindowKind::Settings, Some(3)), WindowFollowUp::ReloadConfig);
    assert_eq!(window_follow_up(WindowKind::Update, Some(0)), WindowFollowUp::Relaunch);
    assert_eq!(window_follow_up(WindowKind::Update, Some(1)), WindowFollowUp::Nothing);
    assert_eq!(window_follow_up(WindowKind::Update, None), WindowFollowUp::Nothing);
    assert_eq!(window_follow_up(WindowKind::About, Some(0)), WindowFollowUp::Nothing);
    assert!(wizard_ended(Some(0)));
    assert!(!wizard_ended(Some(1)));
    assert!(!wizard_ended(None));
}

#[test]
fn tray_errors_say_what_failed() {
    let icon = TrayError::IconCreate("bad size".to_string());
    assert_eq!(icon.message(), "failed to create tray icon: bad size");
    let build = TrayError::Build("no shell".to_string());
    assert_eq!(build.message(), "failed to build tray icon: no shell");
}
