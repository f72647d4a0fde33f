//! Configuration, encryption, logs, installation, migration, registry and the
//! other ties to the operating system.

use std::cmp::Ordering;

use immichsync::clock::{compact_date_text, dashed_date_text, CalendarDay, Timestamp};
use immichsync::config::{
    app_dir_in, config_file_in, device_id_for, program_dir_in, Config, ConfigError, ServerConfig,
};
use immichsync::paths::{child_path, same_path};
use immichsync::platform::autostart::{
    autostart_change, entry_deleted, entry_written, key_opened, set_autostart, AutostartChange,
    AutostartError,
};
use immichsync::platform::drives::{
    drive_info, drive_root_wide, has_dcim_folder, list_drives, DriveFacts, DriveType,
};
use immichsync::platform::encryption::{
    decrypt_api_key, encrypt_api_key, is_encrypted, pack_payload, payload_fits, seal_api_key,
    seal_with, unpack_payload, EncryptionError, ProtectedKey,
};
use immichsync::platform::install::{
    cleanup_legacy_install, cleanup_stale_autostart, cleanup_stale_uninstall_key,
    detect_legacy_installs, exe_path_in, install_exe, installed_exe_path, installed_version,
    is_running_installed, is_update_available, legacy_dirs_in, legacy_install_dirs,
    path_is_under_legacy, running_version, taskkill_args, update_over, version_file_in,
    version_file_path, InstallError,
};
use immichsync::platform::logs::{is_immichsync_log, parse_date_suffix, LogEntry, PruneRun};
use immichsync::platform::migration::{
    after_move_step, legacy_data_dir, legacy_data_dir_in, legacy_migration, migrate_legacy_data,
    migrate_mixed_roaming_layout, migrate_pre_namespace_layout, migrate_to_split_layout,
    mixed_data_dir, mixed_data_dir_in, split_migration, splits, FileState, LayoutState, LogFile,
    LogsState, MoveStep, Transfer,
};
use immichsync::platform::registry::{
    build_uninstall_registry_values, delete_uninstall_registry, key_created, value_written,
    write_uninstall_registry, RegistryValue, UNINSTALL_SUBKEY,
};
use immichsync::platform::shortcuts::{create_shortcut, shortcut_path};
use immichsync::platform::single_instance::{acquire, SingleInstanceError};
use immichsync::platform::uninstall::{
    complete_dialog_text, preserved_data_paths, preserved_paths_of, run, self_delete_script,
    UninstallStep,
};
use immichsync::platform::wide::{code_text, decode_utf16_reg_sz, encode_reg_sz, wide, wide_terminated};

// Configuration

#[test]
fn default_config_has_expected_values() {
    let cfg = Config::default();
    assert_eq!(cfg.server.url, "");
    assert_eq!(cfg.server.api_key, "");
    assert!(cfg.server.device_id.starts_with("immichsync-"));
    assert_eq!(cfg.upload.concurrency, 2);
    assert_eq!(cfg.upload.bandwidth_limit_kbps, 0);
    assert_eq!(cfg.upload.order, "newest_first");
    assert_eq!(cfg.upload.max_retries, 5);
    assert_eq!(cfg.upload.timeout_secs, 300);
    assert!(cfg.devices.auto_watch);
    assert!(cfg.devices.look_for_dcim);
    assert_eq!(cfg.devices.on_insert, "auto");
    assert!(cfg.ui.start_with_windows);
    assert!(cfg.ui.minimize_to_tray);
    assert!(cfg.ui.show_notifications);
    assert!(cfg.ui.notification_on_complete);
    assert_eq!(cfg.advanced.log_level, "info");
    assert_eq!(cfg.advanced.poll_interval_secs, 30);
    assert_eq!(cfg.advanced.write_settle_ms, 2000);
}

#[test]
fn device_ids_name_the_host() {
    assert_eq!(device_id_for(Some("box".to_string())), "immichsync-box");
    assert_eq!(device_id_for(None), "immichsync-unknown");
    assert_eq!(ServerConfig::for_host(None).device_id, "immichsync-unknown");
}

#[test]
fn directories_below_the_application_data() {
    assert_eq!(
        app_dir_in(Some("C:\\D".to_string())).unwrap(),
        "C:\\D\\bees-roadhouse\\immichsync"
    );
    assert!(matches!(app_dir_in(None), Err(ConfigError::NoDataDir)));
    assert_eq!(
        program_dir_in(Some("C:\\D".to_string())).unwrap(),
        "C:\\D\\Programs\\immichsync"
    );
    assert!(matches!(program_dir_in(None), Err(ConfigError::NoDataDir)));
    assert_eq!(config_file_in("C:\\D"), "C:\\D\\config.toml");
    assert_eq!(Config::temp_path("C:\\D\\config.toml"), "C:\\D\\config.toml.tmp");
    assert!(Config::data_dir().unwrap().ends_with("bees-roadhouse\\immichsync"));
    assert!(Config::local_data_dir().unwrap().ends_with("bees-roadhouse\\immichsync"));
    assert!(Config::install_dir().unwrap().ends_with("Programs\\immichsync"));
    assert!(Config::config_path().unwrap().ends_with("immichsync\\config.toml"));
}

#[test]
fn a_saved_key_reads_back() {
    let mut c = Config::default();
    assert!(!c.needs_encryption());
    c.server.api_key = "secret".to_string();
    assert!(c.needs_encryption());
    assert!(!c.needs_decryption());
    let stored = c.for_storage(Some("enc:abc".to_string()));
    assert_eq!(stored.server.api_key, "enc:abc");
    assert!(stored.needs_decryption());
    assert!(!stored.needs_encryption());
    let loaded = stored.clone().with_decrypted_key(Some("secret".to_string()));
    assert_eq!(loaded.server.api_key, "secret");
    assert_eq!(stored.with_decrypted_key(None).server.api_key, "");
    assert_eq!(c.for_storage(None).server.api_key, "");
    assert_eq!(c.for_storage(Some("secret".to_string())).server.api_key, "");
    assert_eq!(c.with_decrypted_key(None).server.api_key, "secret");
}

#[test]
fn config_messages() {
    let p = || "p".to_string();
    let d = || "d".to_string();
    assert_eq!(
        ConfigError::NoDataDir.message(),
        "Could not determine application data directory"
    );
    assert_eq!(
        ConfigError::CreateDir { path: p(), detail: d() }.message(),
        "Failed to create data directory `p`: d"
    );
    assert_eq!(
        ConfigError::ReadFile { path: p(), detail: d() }.message(),
        "Failed to read config file `p`: d"
    );
    assert_eq!(
        ConfigError::Parse { path: p(), detail: d() }.message(),
        "Failed to parse config file `p`: d"
    );
    assert_eq!(
        ConfigError::Serialize { detail: d() }.message(),
        "Failed to serialize config: d"
    );
    assert_eq!(
        ConfigError::WriteFile { path: p(), detail: d() }.message(),
        "Failed to write config file `p`: d"
    );
    assert_eq!(
        ConfigError::Rename { path: p(), detail: d() }.message(),
        "Failed to rename temp config to final path `p`: d"
    );
}

// Encryption

#[test]
fn an_encrypted_key_decrypts() {
    let sealed = seal_api_key("my-api-key").ok().unwrap();
    assert_eq!(sealed.key_material.len(), 44);
    // The operating system protects the key material; here it is reversed.
    let mut blob = sealed.key_material.clone();
    blob.reverse();
    let stored = encrypt_api_key(&sealed, Some(blob)).unwrap();
    assert!(is_encrypted(&stored));
    assert!(!stored.contains("my-api-key"));
    let key = unpack_payload(&stored).unwrap();
    let mut material = key.blob.clone();
    material.reverse();
    assert_eq!(decrypt_api_key(&key, Some(material)).unwrap(), "my-api-key");
}

#[test]
fn known_ciphertext() {
    // AES-256-GCM of the empty plaintext under the zero key and nonce.
    let sealed = seal_with("", &vec![0; 32], &vec![0; 12]).ok().unwrap();
    assert_eq!(
        sealed.ciphertext,
        vec![
            0x53, 0x0f, 0x8a, 0xfb, 0xc7, 0x45, 0x36, 0xb9, 0xa9, 0x63, 0xb4, 0xf1, 0xc4, 0xcb,
            0x73, 0x8b
        ]
    );
}

#[test]
fn stored_keys_are_framed() {
    let s = pack_payload(&vec![1, 2], &vec![3]);
    // 02 00 00 00 01 02 03
    assert_eq!(s, "enc:AgAAAAECAw==");
    let k = unpack_payload(&s).unwrap();
    assert_eq!((k.blob, k.ciphertext), (vec![1, 2], vec![3]));
}

#[test]
fn bad_keys_are_refused() {
    assert!(matches!(unpack_payload("plain"), Err(EncryptionError::Malformed)));
    assert!(matches!(unpack_payload("enc:AgA="), Err(EncryptionError::Malformed)));
    assert!(matches!(unpack_payload("enc:AgAAAAE="), Err(EncryptionError::Malformed)));
    assert!(matches!(unpack_payload("enc:*"), Err(EncryptionError::Base64(_))));
    let sealed = seal_api_key("k").ok().unwrap();
    assert!(matches!(encrypt_api_key(&sealed, None), Err(EncryptionError::DpapiProtect)));
    let key = ProtectedKey { blob: vec![], ciphertext: sealed.ciphertext.clone() };
    assert!(matches!(decrypt_api_key(&key, None), Err(EncryptionError::DpapiUnprotect)));
    assert!(matches!(
        decrypt_api_key(&key, Some(vec![0; 43])),
        Err(EncryptionError::Malformed)
    ));
    assert!(matches!(
        decrypt_api_key(&key, Some(vec![0; 44])),
        Err(EncryptionError::AesDecrypt)
    ));
    assert_eq!(
        EncryptionError::Base64("x".to_string()).message(),
        "base64 decode failed: x"
    );
    assert_eq!(EncryptionError::DpapiProtect.message(), "DPAPI CryptProtectData failed");
    assert_eq!(EncryptionError::DpapiUnprotect.message(), "DPAPI CryptUnprotectData failed");
    assert_eq!(EncryptionError::AesEncrypt.message(), "AES-GCM encryption failed");
    assert_eq!(EncryptionError::AesDecrypt.message(), "AES-GCM decryption failed");
    assert_eq!(EncryptionError::Malformed.message(), "encrypted payload is malformed");
}

// Logs

#[test]
fn parses_date_suffix_only_on_valid_shape() {
    assert_eq!(
        parse_date_suffix("immichsync.log.2026-05-26"),
        Some("2026-05-26".to_string())
    );
    assert_eq!(parse_date_suffix("immichsync.log"), None);
    assert_eq!(parse_date_suffix("immichsync.log.bak"), None);
    assert_eq!(parse_date_suffix("immichsync.log.2026-5-26"), None);
    assert_eq!(parse_date_suffix("other.log.2026-05-26"), None);
}

/// The files of a directory: the name and the size of each.
fn log_entries(files: &[(&str, u64)]) -> Vec<LogEntry> {
    files
        .iter()
        .filter_map(|(name, size)| {
            LogEntry::of_file(
                &format!("/logs/{name}"),
                name,
                Timestamp { secs: 0, nanos: 0 },
                *size,
            )
        })
        .collect()
}

#[test]
fn logs_are_ordered_by_date_and_then_by_time() {
    let at = |name: &str, secs: i64| {
        LogEntry::of_file(&format!("/logs/{name}"), name, Timestamp { secs, nanos: 0 }, 1).unwrap()
    };
    let early = at("immichsync.log.2026-05-20", 9);
    let late = at("immichsync.log.2026-05-21", 1);
    let plain = at("immichsync.log", 3);
    let plain_later = at("immichsync.log", 4);
    assert_eq!(LogEntry::cmp_age(&early, &late), Ordering::Less);
    assert_eq!(LogEntry::cmp_age(&late, &early), Ordering::Greater);
    assert_eq!(LogEntry::cmp_age(&late, &plain), Ordering::Less);
    assert_eq!(LogEntry::cmp_age(&plain, &late), Ordering::Greater);
    assert_eq!(LogEntry::cmp_age(&plain, &plain_later), Ordering::Less);
    assert_eq!(LogEntry::cmp_age(&plain, &plain), Ordering::Equal);
}

/// Carries a run out on a directory; the names that are left.
fn prune(mut run: PruneRun, files: &[(&str, u64)]) -> Vec<String> {
    let mut left: Vec<String> = files.iter().map(|(name, _)| name.to_string()).collect();
    while let Some(path) = run.next() {
        left.retain(|n| format!("/logs/{n}") != path);
        run.report(true);
    }
    left
}

#[test]
fn prune_under_cap_is_noop() {
    let files = [("immichsync.log.2026-05-20", 1024), ("immichsync.log.2026-05-21", 1024)];
    let left = prune(PruneRun::start_today(&log_entries(&files), 1024 * 1024), &files);
    assert!(left.contains(&"immichsync.log.2026-05-20".to_string()));
    assert!(left.contains(&"immichsync.log.2026-05-21".to_string()));
}

#[test]
fn prune_deletes_oldest_first_until_under_cap() {
    // Four times 50 KiB, and a budget of 100 KiB: the two oldest must go.
    let files = [
        ("immichsync.log.2026-05-20", 50 * 1024),
        ("immichsync.log.2026-05-21", 50 * 1024),
        ("immichsync.log.2026-05-22", 50 * 1024),
        ("immichsync.log.2026-05-23", 50 * 1024),
    ];
    let left = prune(PruneRun::start_today(&log_entries(&files), 100 * 1024), &files);
    assert!(
        !left.contains(&"immichsync.log.2026-05-20".to_string()),
        "oldest should be pruned"
    );
    assert!(
        !left.contains(&"immichsync.log.2026-05-21".to_string()),
        "second-oldest should be pruned"
    );
    assert!(left.contains(&"immichsync.log.2026-05-22".to_string()));
    assert!(left.contains(&"immichsync.log.2026-05-23".to_string()));
}

#[test]
fn prune_never_deletes_today() {
    let today = chrono::Local::now().format("%Y-%m-%d").to_string();
    let today_name = format!("immichsync.log.{today}");
    // 200 KiB today and 50 KiB before, and a budget of 100 KiB.
    let files = [(today_name.as_str(), 200 * 1024), ("immichsync.log.2026-05-20", 50 * 1024)];
    let left = prune(PruneRun::start_today(&log_entries(&files), 100 * 1024), &files);

    // Today's file alone is over the budget, so everything stays.
    assert!(left.contains(&today_name), "today must survive");
    assert!(
        left.contains(&"immichsync.log.2026-05-20".to_string()),
        "when today exceeds cap alone, prune leaves everything"
    );
}

#[test]
fn prune_when_today_under_cap_but_total_over() {
    let today = chrono::Local::now().format("%Y-%m-%d").to_string();
    let today_name = format!("immichsync.log.{today}");
    // 30 KiB today and 80 KiB before, and a budget of 100 KiB.
    let files = [(today_name.as_str(), 30 * 1024), ("immichsync.log.2026-05-20", 80 * 1024)];
    let left = prune(PruneRun::start_today(&log_entries(&files), 100 * 1024), &files);
    assert!(left.contains(&today_name));
    assert!(!left.contains(&"immichsync.log.2026-05-20".to_string()));
}

#[test]
fn prune_ignores_non_immichsync_files() {
    let files = [("notes.txt", 200 * 1024), ("immichsync.log.2026-05-20", 200 * 1024)];
    let left = prune(PruneRun::start_today(&log_entries(&files), 50 * 1024), &files);
    assert!(left.contains(&"notes.txt".to_string()), "non-log files untouched");
    assert!(
        !left.contains(&"immichsync.log.2026-05-20".to_string()),
        "old log file pruned"
    );
}

#[test]
fn a_log_that_cannot_be_deleted_is_passed_over() {
    let files = [("immichsync.log.2026-05-20", 60), ("immichsync.log.2026-05-21", 60)];
    let mut run = PruneRun::start(&log_entries(&files), "2026-05-22", 100);
    assert_eq!(run.next(), Some("/logs/immichsync.log.2026-05-20".to_string()));
    run.report(false);
    assert_eq!(run.next(), Some("/logs/immichsync.log.2026-05-21".to_string()));
    run.report(true);
    assert_eq!(run.next(), None);
    assert_eq!(run.outcome(), (1, 60));
}

#[test]
fn log_names() {
    assert!(is_immichsync_log("immichsync.log"));
    assert!(is_immichsync_log("immichsync.log.2026-05-20"));
    assert!(!is_immichsync_log("immichsync.txt"));
    let e = &log_entries(&[("immichsync.log.2026-05-20", 1)])[0];
    assert!(e.is_today("2026-05-20"));
    assert!(!e.is_today("2026-05-21"));
}

// Migration

const NOTHING: FileState = FileState { source_exists: false, dest_exists: false };
const TO_MOVE: FileState = FileState { source_exists: true, dest_exists: false };
const IN_PLACE: FileState = FileState { source_exists: true, dest_exists: true };

fn nothing() -> LayoutState {
    LayoutState {
        config: NOTHING,
        database: NOTHING,
        write_ahead_log: NOTHING,
        shared_memory: NOTHING,
        logs: None,
    }
}

fn log_file(name: &str) -> LogFile {
    LogFile { name: name.to_string(), is_file: true, dest_exists: false }
}

/// Whether the transfers take `from` to `to`.
fn takes(transfers: &[Transfer], from: &str, to: &str) -> bool {
    transfers.iter().any(|t| t.from == from && t.to == to)
}

#[test]
fn migrate_pre_namespace_routes_files_to_correct_dirs() {
    let state = LayoutState {
        config: TO_MOVE,
        database: TO_MOVE,
        write_ahead_log: TO_MOVE,
        shared_memory: NOTHING,
        logs: Some(LogsState {
            new_dir_exists: false,
            files: vec![log_file("a.log"), log_file("b.log")],
        }),
    };
    let plan = migrate_pre_namespace_layout("T\\legacy", "T\\new_cfg", "T\\new_local", &state);

    // The old files stay.
    assert!(plan.keep_source);
    // The configuration goes to the roaming directory.
    assert!(takes(&plan.transfers, "T\\legacy\\config.toml", "T\\new_cfg\\config.toml"));
    // The database and its companion go to the local one.
    assert!(takes(&plan.transfers, "T\\legacy\\state.db", "T\\new_local\\state.db"));
    assert!(takes(&plan.transfers, "T\\legacy\\state.db-wal", "T\\new_local\\state.db-wal"));
    assert_eq!(plan.transfers.len(), 3);
    // So do the logs.
    let logs = plan.logs.unwrap();
    assert!(takes(&logs.transfers, "T\\legacy\\logs\\a.log", "T\\new_local\\logs\\a.log"));
    assert!(takes(&logs.transfers, "T\\legacy\\logs\\b.log", "T\\new_local\\logs\\b.log"));
    assert_eq!(logs.create_dir, Some("T\\new_local\\logs".to_string()));
    assert_eq!(logs.remove_dir, None);
}

#[test]
fn migrate_pre_namespace_does_not_overwrite_existing() {
    let state = LayoutState { config: IN_PLACE, database: IN_PLACE, ..nothing() };
    let plan = migrate_pre_namespace_layout("T\\legacy", "T\\new_cfg", "T\\new_local", &state);
    assert!(plan.transfers.is_empty());
    assert!(plan.logs.is_none());
}

#[test]
fn migrate_pre_namespace_is_noop_when_legacy_missing() {
    let plan =
        migrate_pre_namespace_layout("T\\nonexistent", "T\\new_cfg", "T\\new_local", &nothing());
    assert!(plan.transfers.is_empty());
    assert!(plan.logs.is_none());
    assert!(migrate_legacy_data(Some("T\\nonexistent".to_string()), false).unwrap().is_none());
    assert!(migrate_legacy_data(None, true).unwrap().is_none());
    let dirs = migrate_legacy_data(Some("T\\legacy".to_string()), true).unwrap().unwrap();
    assert_eq!(dirs.legacy, "T\\legacy");
}

#[test]
fn migrate_mixed_roaming_moves_state_and_logs() {
    let state = LayoutState {
        config: TO_MOVE,
        database: TO_MOVE,
        write_ahead_log: NOTHING,
        shared_memory: TO_MOVE,
        logs: Some(LogsState { new_dir_exists: false, files: vec![log_file("today.log")] }),
    };
    let plan = migrate_mixed_roaming_layout("T\\old_roaming", "T\\new_local", &state);

    // The database is moved.
    assert!(takes(&plan.transfers, "T\\old_roaming\\state.db", "T\\new_local\\state.db"));
    assert!(takes(&plan.transfers, "T\\old_roaming\\state.db-shm", "T\\new_local\\state.db-shm"));
    // So are the logs.
    let logs = plan.logs.unwrap();
    assert!(takes(
        &logs.transfers,
        "T\\old_roaming\\logs\\today.log",
        "T\\new_local\\logs\\today.log"
    ));
    assert_eq!(logs.remove_dir, Some("T\\old_roaming\\logs".to_string()));
    assert!(!plan.keep_source);
    // The configuration stays.
    assert!(plan.transfers.iter().all(|t| !t.from.ends_with("config.toml")));
}

#[test]
fn migrate_mixed_roaming_preserves_existing_new_dest() {
    let state = LayoutState { database: IN_PLACE, ..nothing() };
    let plan = migrate_mixed_roaming_layout("T\\old_roaming", "T\\new_local", &state);
    assert!(plan.transfers.is_empty());
}

#[test]
fn migrate_mixed_roaming_is_noop_when_source_missing() {
    let plan = migrate_mixed_roaming_layout("T\\nonexistent", "T\\new_local", &nothing());
    assert!(plan.transfers.is_empty());
    assert!(plan.logs.is_none());
    assert!(migrate_to_split_layout(Some("T\\nonexistent".to_string()), false)
        .unwrap()
        .is_none());
    assert!(migrate_to_split_layout(None, true).unwrap().is_none());
}

#[test]
fn logs_are_not_overwritten() {
    let state = LayoutState {
        logs: Some(LogsState {
            new_dir_exists: true,
            files: vec![
                LogFile { name: "a.log".to_string(), is_file: true, dest_exists: true },
                LogFile { name: "sub".to_string(), is_file: false, dest_exists: false },
            ],
        }),
        ..nothing()
    };
    let logs = migrate_mixed_roaming_layout("o", "n", &state).logs.unwrap();
    assert!(logs.transfers.is_empty());
    assert_eq!(logs.create_dir, None);
}

#[test]
fn a_file_is_copied_where_it_cannot_be_renamed() {
    assert_eq!(after_move_step(MoveStep::Rename, true), None);
    assert_eq!(after_move_step(MoveStep::Rename, false), Some(MoveStep::Copy));
    assert_eq!(after_move_step(MoveStep::Copy, true), Some(MoveStep::RemoveSource));
    assert_eq!(after_move_step(MoveStep::Copy, false), None);
    assert_eq!(after_move_step(MoveStep::RemoveSource, true), None);
}

#[test]
fn data_is_not_moved_onto_itself() {
    assert!(splits("/a/b", true, "/a/c"));
    assert!(!splits("/a/b", true, "/a/b/"));
    assert!(!splits("/a/b", false, "/a/c"));
    assert!(legacy_data_dir().unwrap().ends_with("\\ImmichSync"));
    assert!(mixed_data_dir().unwrap().ends_with("\\bees-roadhouse\\immichsync"));
}

#[test]
fn migrations_start_from_the_application_data() {
    let text = |s: &str| Some(s.to_string());
    let dirs =
        legacy_migration(text("O"), true, text("R"), text("L")).unwrap().unwrap();
    assert_eq!(dirs.legacy, "O");
    assert_eq!(dirs.new_config, "R\\bees-roadhouse\\immichsync");
    assert_eq!(dirs.new_local, "L\\bees-roadhouse\\immichsync");
    assert!(legacy_migration(text("O"), false, None, None).unwrap().is_none());
    assert!(matches!(
        legacy_migration(text("O"), true, text("R"), None),
        Err(InstallError::DataDir(_))
    ));
    assert!(matches!(
        legacy_migration(text("O"), true, None, text("L")),
        Err(InstallError::DataDir(_))
    ));

    let split = split_migration(text("/o"), true, text("L")).unwrap().unwrap();
    assert_eq!((split.from.as_str(), split.to.as_str()), ("/o", "L\\bees-roadhouse\\immichsync"));
    assert!(split_migration(text("L\\bees-roadhouse\\immichsync"), true, text("L"))
        .unwrap()
        .is_none());
    assert!(split_migration(text("/o"), true, None).is_err());
    assert!(split_migration(None, true, None).unwrap().is_none());
}

#[test]
fn old_directories_lie_below_the_roaming_directory() {
    let base = "C:\\Users\\a\\AppData\\Roaming";
    assert_eq!(
        legacy_data_dir_in(Some(base.to_string())).as_deref(),
        Some("C:\\Users\\a\\AppData\\Roaming\\ImmichSync")
    );
    assert_eq!(
        mixed_data_dir_in(Some(base.to_string())).as_deref(),
        Some("C:\\Users\\a\\AppData\\Roaming\\bees-roadhouse\\immichsync")
    );
    assert_eq!(legacy_data_dir_in(None), None);
    assert_eq!(mixed_data_dir_in(None), None);
}

// The list of installed programs

#[test]
fn uninstall_registry_values_have_expected_shape() {
    let date = CalendarDay { year: 2026, month: 5, day: 25 };
    let install_dir = "C:\\Users\\test\\AppData\\Local\\Programs\\immichsync";
    // 1 MB is 1024 KB.
    let values = build_uninstall_registry_values(install_dir, date, 1024 * 1024);

    assert_eq!(values.display_name, "ImmichSync");
    assert_eq!(values.publisher, "Bee's Roadhouse");
    assert_eq!(
        values.uninstall_string,
        "\"C:\\Users\\test\\AppData\\Local\\Programs\\immichsync\\immichsync.exe\" --uninstall"
    );
    assert_eq!(
        values.quiet_uninstall_string,
        "\"C:\\Users\\test\\AppData\\Local\\Programs\\immichsync\\immichsync.exe\" --uninstall --silent"
    );
    assert_eq!(
        values.display_icon,
        "\"C:\\Users\\test\\AppData\\Local\\Programs\\immichsync\\immichsync.exe\",0"
    );
    assert_eq!(
        values.install_location,
        "C:\\Users\\test\\AppData\\Local\\Programs\\immichsync"
    );
    assert_eq!(values.install_date, "20260525");
    assert_eq!(values.estimated_size_kb, 1024);
    assert_eq!(values.display_version, running_version());
    assert_eq!(
        values.url_info_about,
        "https://github.com/bees-roadhouse/immichsync"
    );
    assert_eq!(
        values.help_link,
        "https://github.com/bees-roadhouse/immichsync/issues"
    );
    assert_eq!(values.no_modify, 1);
    assert_eq!(values.no_repair, 1);
}

#[test]
fn uninstall_registry_size_rounds_up_to_nearest_kb() {
    let date = CalendarDay { year: 2026, month: 5, day: 25 };
    let install_dir = "C:\\test\\immichsync";

    // 1025 bytes are 2 KB, rounded up.
    let v1 = build_uninstall_registry_values(install_dir, date, 1025);
    assert_eq!(v1.estimated_size_kb, 2);

    // 0 bytes are 0 KB.
    let v0 = build_uninstall_registry_values(install_dir, date, 0);
    assert_eq!(v0.estimated_size_kb, 0);

    // 1024 bytes are 1 KB.
    let v_exact = build_uninstall_registry_values(install_dir, date, 1024);
    assert_eq!(v_exact.estimated_size_kb, 1);
}

#[test]
fn uninstall_subkey_matches_documented_path() {
    assert_eq!(
        UNINSTALL_SUBKEY,
        "Software\\Microsoft\\Windows\\CurrentVersion\\Uninstall\\ImmichSync"
    );
}

#[test]
fn registry_values_are_written_by_name() {
    let date = CalendarDay { year: 2026, month: 5, day: 25 };
    let writes = build_uninstall_registry_values("C:\\i", date, 10).writes();
    assert_eq!(writes.len(), 13);
    assert_eq!(writes[0].name, "DisplayName");
    let name = writes.iter().find(|w| w.name == "DisplayName").unwrap();
    assert_eq!(name.value.bytes(), encode_reg_sz("ImmichSync"));
    let size = writes.iter().find(|w| w.name == "EstimatedSize").unwrap();
    assert_eq!(size.value.bytes(), vec![1, 0, 0, 0]);
    assert_eq!(RegistryValue::Number(0x01020304).bytes(), vec![4, 3, 2, 1]);
    let written = write_uninstall_registry(2048).unwrap();
    assert_eq!(written.estimated_size_kb, 2);
    let today = chrono::Local::now().format("%Y%m%d").to_string();
    assert_eq!(written.install_date, today);
}

#[test]
fn registry_codes() {
    assert!(key_created(0).is_ok());
    assert!(value_written("DisplayName", 0).is_ok());
    assert!(delete_uninstall_registry(0).is_ok());
    assert!(delete_uninstall_registry(2).is_ok());
    assert!(matches!(key_created(5), Err(InstallError::Io(_))));
    assert!(matches!(value_written("DisplayName", 5), Err(InstallError::Io(_))));
    assert!(matches!(delete_uninstall_registry(5), Err(InstallError::Io(_))));
}

#[test]
fn dates_without_separators() {
    assert_eq!(compact_date_text(CalendarDay { year: 2026, month: 1, day: 9 }), "20260109");
    assert_eq!(compact_date_text(CalendarDay { year: 987, month: 12, day: 31 }), "09871231");
}

// Registry texts

#[test]
fn decode_utf16_reg_sz_handles_typical_values() {
    // UTF-16, low byte first, and the zero that ends it.
    let s = "C:\\app";
    let mut bytes: Vec<u8> = s.encode_utf16().flat_map(|w| w.to_le_bytes()).collect();
    bytes.extend_from_slice(&[0, 0]);
    assert_eq!(decode_utf16_reg_sz(&bytes).as_deref(), Some(s));
    assert_eq!(encode_reg_sz(s), bytes);
}

#[test]
fn decode_utf16_reg_sz_strips_trailing_nulls() {
    // "x" and two zeros.
    let bytes: Vec<u8> = "x"
        .encode_utf16()
        .chain(std::iter::once(0))
        .chain(std::iter::once(0))
        .flat_map(|w| w.to_le_bytes())
        .collect();
    assert_eq!(decode_utf16_reg_sz(&bytes).as_deref(), Some("x"));
}

#[test]
fn decode_utf16_reg_sz_rejects_odd_length() {
    assert_eq!(decode_utf16_reg_sz(&[1, 2, 3]), None);
    assert_eq!(decode_utf16_reg_sz(&[1]), None);
    assert_eq!(decode_utf16_reg_sz(&[]), None);
}

#[test]
fn utf16_beyond_the_basic_plane() {
    let s = "a\u{e9}\u{1f600}";
    assert_eq!(wide(s), s.encode_utf16().collect::<Vec<u16>>());
    let mut ended: Vec<u16> = s.encode_utf16().collect();
    ended.push(0);
    assert_eq!(wide_terminated(s), ended);
    assert_eq!(decode_utf16_reg_sz(&encode_reg_sz(s)).as_deref(), Some(s));
    // A lone surrogate is no text.
    assert_eq!(decode_utf16_reg_sz(&[0x00, 0xd8, 0, 0]), None);
    assert_eq!(code_text(0xc5), "0x000000c5");
}

// Earlier installations

#[test]
fn path_is_under_legacy_matches_exact_and_descendants() {
    let legacy = vec![
        "C:\\Users\\u\\AppData\\Roaming\\ImmichSync".to_string(),
        "C:\\Users\\u\\AppData\\Roaming\\bees-roadhouse\\immichsync".to_string(),
    ];

    // The directory itself.
    assert!(path_is_under_legacy("C:\\Users\\u\\AppData\\Roaming\\ImmichSync", &legacy));

    // Below it.
    assert!(path_is_under_legacy(
        "C:\\Users\\u\\AppData\\Roaming\\ImmichSync\\immichsync.exe",
        &legacy
    ));
    assert!(path_is_under_legacy(
        "C:\\Users\\u\\AppData\\Roaming\\bees-roadhouse\\immichsync\\state.db",
        &legacy
    ));

    // Case is ignored.
    assert!(path_is_under_legacy(
        "c:\\users\\U\\appdata\\roaming\\immichsync\\immichsync.exe",
        &legacy
    ));

    // The new place does not match.
    assert!(!path_is_under_legacy(
        "C:\\Users\\u\\AppData\\Local\\Programs\\immichsync\\immichsync.exe",
        &legacy
    ));

    // Nor does a directory whose name only starts the same.
    assert!(!path_is_under_legacy(
        "C:\\Users\\u\\AppData\\Roaming\\ImmichSyncBackup\\file.dat",
        &legacy
    ));
}

#[test]
fn legacy_install_dirs_contains_both_known_layouts() {
    let dirs = legacy_install_dirs();
    let names: Vec<String> = dirs.iter().map(|d| d.to_lowercase()).collect();
    assert!(
        names
            .iter()
            .any(|n| n.ends_with("\\immichsync") && !n.contains("bees-roadhouse")),
        "Expected pre-namespace dir ending in \\ImmichSync, got: {names:?}"
    );
    assert!(
        names
            .iter()
            .any(|n| n.ends_with("\\bees-roadhouse\\immichsync")),
        "Expected mixed-roaming dir ending in \\bees-roadhouse\\immichsync, got: {names:?}"
    );
    assert!(legacy_dirs_in(None).is_empty());
}

#[test]
fn earlier_installations_are_cleaned_up() {
    let dirs = vec!["A".to_string(), "B".to_string()];
    let active = detect_legacy_installs(&dirs, &vec![false, true]);
    assert_eq!(active, vec!["B".to_string()]);
    let files = cleanup_legacy_install(&active);
    assert_eq!(files.len(), 1);
    assert_eq!(files[0].executable, "B\\immichsync.exe");
    assert_eq!(files[0].version_file, "B\\version.txt");
    assert!(cleanup_stale_autostart(Some("b\\immichsync.exe"), &dirs));
    assert!(!cleanup_stale_autostart(Some("C\\immichsync.exe"), &dirs));
    assert!(!cleanup_stale_autostart(None, &dirs));
    assert!(cleanup_stale_uninstall_key(Some("A"), &dirs));
    assert!(!cleanup_stale_uninstall_key(None, &dirs));
    assert_eq!(
        taskkill_args(7),
        vec!["/F", "/FI", "PID ne 7", "/IM", "immichsync.exe"]
    );
}

#[test]
fn installation() {
    assert!(install_exe(true, "D", true).is_none());
    let p = install_exe(false, "D", false).unwrap();
    assert_eq!(p.create_dir, Some("D".to_string()));
    assert_eq!(p.destination, "D\\immichsync.exe");
    assert_eq!(p.version_file, "D\\version.txt");
    assert_eq!(p.version, running_version());
    assert_eq!(install_exe(false, "D", true).unwrap().create_dir, None);
    assert!(installed_exe_path().unwrap().ends_with("Programs\\immichsync\\immichsync.exe"));
    assert!(version_file_path().unwrap().ends_with("Programs\\immichsync\\version.txt"));
    assert!(is_running_installed("/x", Some("/real"), "/y", Some("/real")));
    assert!(!is_running_installed("/x", Some("/real"), "/y", Some("/other")));
}

#[test]
fn installed_versions_are_compared() {
    assert_eq!(installed_version(Some(" 1.2.3\n")), Some("1.2.3".to_string()));
    assert_eq!(installed_version(Some("  ")), None);
    assert_eq!(installed_version(None), None);
    let v = |s: &str| Some(s.to_string());
    assert_eq!(
        update_over(v("1.9.0"), "1.10.0"),
        Some(("1.9.0".to_string(), "1.10.0".to_string()))
    );
    assert_eq!(update_over(v("1.10.0"), "1.10.0"), None);
    assert_eq!(update_over(v("2.0.0"), "1.10.0"), None);
    assert_eq!(update_over(v("1.0.0-rc.1"), "1.0.0").is_some(), true);
    assert_eq!(update_over(v("?"), "1.10.0"), None);
    assert_eq!(update_over(None, "1.10.0"), None);
    assert!(is_update_available(v("0.0.1")).is_some());
    assert!(is_update_available(v("999.0.0")).is_none());
}

#[test]
fn install_messages() {
    assert_eq!(
        InstallError::DataDir(ConfigError::NoDataDir).message(),
        "could not determine data directory: Could not determine application data directory"
    );
    assert_eq!(
        InstallError::CurrentExe("x".to_string()).message(),
        "could not determine current executable: x"
    );
    assert_eq!(
        InstallError::Copy { dest: "d".to_string(), detail: "x".to_string() }.message(),
        "failed to copy exe to `d`: x"
    );
    assert_eq!(
        InstallError::CreateDir { path: "p".to_string(), detail: "x".to_string() }.message(),
        "failed to create directory `p`: x"
    );
    assert_eq!(InstallError::Io("x".to_string()).message(), "IO error: x");
}

// Removal

#[test]
fn preserved_paths_include_config_and_local_data() {
    let s = preserved_data_paths();

    // The configuration file in the roaming directory.
    assert!(
        s.iter().any(|p| p.ends_with("config.toml")),
        "config.toml not in preserved paths: {s:?}"
    );
    // The local data directory.
    assert!(
        s.iter().any(|p| p.contains("bees-roadhouse")),
        "bees-roadhouse local dir not in preserved paths: {s:?}"
    );
}

#[test]
fn removal_steps() {
    let steps = run(false, Some("D".to_string()));
    assert_eq!(steps.len(), 7);
    assert!(matches!(steps[0], UninstallStep::StopRunningInstance));
    assert!(matches!(steps[1], UninstallStep::Wait { ms: 500 }));
    assert!(matches!(steps[2], UninstallStep::RemoveAutostart));
    assert!(matches!(&steps[3], UninstallStep::RemoveShortcuts { name } if name == "ImmichSync"));
    assert!(matches!(steps[4], UninstallStep::RemoveRegistryEntry));
    assert!(matches!(steps[5], UninstallStep::ShowComplete));
    assert!(matches!(&steps[6], UninstallStep::DeleteLater { dir } if dir == "D"));
    let silent = run(true, None);
    assert_eq!(silent.len(), 5);
    assert_eq!(
        self_delete_script("D"),
        "ping 127.0.0.1 -n 5 >nul & rmdir /s /q \"D\" & exit"
    );
    assert!(complete_dialog_text(Some("c"), Some("l")).contains("preserved at:\nc\nl\n"));
    assert!(complete_dialog_text(None, None).starts_with("ImmichSync has been removed."));
}

// Autostart, drives, shortcuts, the single instance

#[test]
fn autostart_starts_the_installed_program() {
    match set_autostart(true).unwrap() {
        AutostartChange::Write(bytes) => {
            let text = decode_utf16_reg_sz(&bytes).unwrap();
            assert!(text.ends_with("Programs\\immichsync\\immichsync.exe"), "{text}");
        }
        AutostartChange::Delete => panic!("expected a value"),
    }
    assert!(matches!(set_autostart(false).unwrap(), AutostartChange::Delete));
    assert!(key_opened(0).is_ok());
    assert!(entry_written(0).is_ok());
    assert!(entry_deleted(2).is_ok());
    assert_eq!(
        key_opened(5).unwrap_err().message(),
        "registry open failed: Win32 error 0x00000005"
    );
    assert_eq!(
        entry_written(5).unwrap_err().message(),
        "registry write failed: Win32 error 0x00000005"
    );
    assert_eq!(
        entry_deleted(5).unwrap_err().message(),
        "registry delete failed: Win32 error 0x00000005"
    );
    assert_eq!(
        AutostartError::ExePath("x".to_string()).message(),
        "could not determine current executable path: x"
    );
    assert_eq!(
        AutostartError::ExePathEncoding.message(),
        "executable path is not valid UTF-8"
    );
}

#[test]
fn drives() {
    let label: Vec<u16> = " SD CARD \0\0".encode_utf16().collect();
    let d = drive_info('E', 2, Some(&label));
    assert_eq!((d.letter, d.drive_type), ('E', DriveType::Removable));
    assert_eq!(d.label, Some("SD CARD".to_string()));
    assert_eq!(drive_info('C', 3, None).drive_type, DriveType::Fixed);
    assert_eq!(drive_info('N', 4, None).drive_type, DriveType::Network);
    assert_eq!(drive_info('R', 5, None).drive_type, DriveType::CdRom);
    assert_eq!(drive_info('X', 1, None).drive_type, DriveType::Unknown);
    assert_eq!(drive_info('X', 1, Some(&vec![0])).label, None);
    // A lone surrogate is replaced.
    assert_eq!(drive_info('X', 1, Some(&vec![0xd800, 0])).label, Some("\u{fffd}".to_string()));
    assert_eq!(drive_root_wide('C'), vec![67, 58, 92, 0]);
    assert!(has_dcim_folder('E', |p| p == "E:\\DCIM"));
    assert!(!has_dcim_folder('E', |_| false));
}

#[test]
fn shortcuts() {
    assert_eq!(shortcut_path("C:\\Desktop", "ImmichSync"), "C:\\Desktop\\ImmichSync.lnk");
    let s = create_shortcut("/desk", "ImmichSync", "/opt/i/immichsync.exe", "Sync");
    assert_eq!(s.target, "/opt/i/immichsync.exe");
    assert_eq!(s.working_dir, Some("/opt/i".to_string()));
    assert_eq!(s.app_id, "BeesRoadhouse.ImmichSync");
    assert_eq!(s.description, "Sync");
}

#[test]
fn one_instance_at_a_time() {
    assert_eq!(acquire(Ok(0)), Ok(true));
    assert_eq!(acquire(Ok(183)), Ok(false));
    assert_eq!(acquire(Err(5)), Err(SingleInstanceError::CreateFailed(5)));
    assert_eq!(
        SingleInstanceError::CreateFailed(5).message(),
        "failed to create named mutex: Win32 error 5"
    );
}

#[test]
fn every_letter_of_the_mask_is_a_drive() {
    let drives = list_drives(0b1_0000_0100, |letter| DriveFacts {
        raw_type: if letter == 'C' { 3 } else { 2 },
        label: if letter == 'C' { Some(vec![79, 83, 0, 0]) } else { None },
    });
    assert_eq!(drives.len(), 2);
    assert_eq!(drives[0].letter, 'C');
    assert_eq!(drives[0].drive_type, DriveType::Fixed);
    assert_eq!(drives[0].label, Some("OS".to_string()));
    assert_eq!(drives[1].letter, 'I');
    assert_eq!(drives[1].drive_type, DriveType::Removable);
    assert_eq!(drives[1].label, None);
    assert!(list_drives(0, |_| DriveFacts { raw_type: 3, label: None }).is_empty());
}

#[test]
fn only_known_paths_are_preserved() {
    let config = || Some("C:\\r\\config.toml".to_string());
    let local = || Some("C:\\l".to_string());
    assert_eq!(preserved_paths_of(config(), local()), vec!["C:\\r\\config.toml", "C:\\l"]);
    assert_eq!(preserved_paths_of(config(), None), vec!["C:\\r\\config.toml"]);
    assert_eq!(preserved_paths_of(None, local()), vec!["C:\\l"]);
    assert!(preserved_paths_of(None, None).is_empty());
}

#[test]
fn autostart_follows_the_installed_program() {
    let exe = || Ok("C:\\p\\immichsync.exe".to_string());
    assert!(matches!(autostart_change(false, exe()), Ok(AutostartChange::Delete)));
    match autostart_change(true, exe()) {
        Ok(AutostartChange::Write(bytes)) => {
            assert_eq!(bytes, encode_reg_sz("C:\\p\\immichsync.exe"));
        }
        other => panic!("unexpected change {other:?}"),
    }
    match autostart_change(true, Err(InstallError::Io("x".to_string()))) {
        Err(AutostartError::ExePath(message)) => assert_eq!(message, "IO error: x"),
        other => panic!("unexpected change {other:?}"),
    }
    assert_eq!(exe_path_in("C:\\p"), "C:\\p\\immichsync.exe");
    assert_eq!(version_file_in("C:\\p"), "C:\\p\\version.txt");
}

#[test]
fn paths_are_compared_by_their_components() {
    assert!(same_path("/a/b", "/a/b/"));
    assert!(same_path("/a//b", "/a/b"));
    assert!(!same_path("/a/b", "/a/c"));
    assert!(!same_path("/a", "/A"));
    assert!(same_path("c:/x", "C:/x"));
    assert!(!same_path("c:/x", "C:/X"));
    assert!(!same_path("c:/x", "d:/x"));
}

#[test]
fn an_entry_of_a_drive_has_no_separator() {
    assert_eq!(child_path("C:", "x"), "C:x");
    assert_eq!(child_path("c:", "x"), "c:x");
    assert_eq!(child_path("C:\\", "x"), "C:\\x");
    assert_eq!(child_path("1:", "x"), "1:\\x");
    assert_eq!(child_path("C:\\a", "x"), "C:\\a\\x");
}

#[test]
fn days_are_written_with_dashes() {
    assert_eq!(dashed_date_text(CalendarDay { year: 2026, month: 1, day: 9 }), "2026-01-09");
    assert_eq!(dashed_date_text(CalendarDay { year: 12026, month: 11, day: 30 }), "+12026-11-30");
}

#[test]
fn what_is_stored_has_to_fit() {
    assert!(payload_fits(500, 60));
    assert!(!payload_fits(usize::MAX, 0));
    assert!(!payload_fits(isize::MAX as usize, isize::MAX as usize));
    match unpack_payload("enc:!") {
        Err(EncryptionError::Base64(message)) => assert!(message.contains("Invalid"), "{message}"),
        other => panic!("unexpected {other:?}"),
    }
}
