//! Configuration of ImmichSync.
//!
//! The configuration is kept in `%APPDATA%\bees-roadhouse\immichsync\config.toml`.
//! Machine-local state lives under `%LOCALAPPDATA%\bees-roadhouse\immichsync`.

use vstd::prelude::*;

use crate::db::UploadOrder;
use crate::paths;
use crate::paths::child_path;
use crate::platform::encryption;
use crate::platform::encryption::is_encrypted;
use crate::text;
use crate::text::{concat2, concat3};

verus! {

broadcast use vstd::seq::group_seq_axioms;

// ── Errors ──────────────────────────────────────────────────────────────────

/// Why the configuration could not be loaded or saved. `detail` is the message
/// of whoever failed.
#[derive(Debug)]
pub enum ConfigError {
    NoDataDir,
    CreateDir { path: String, detail: String },
    ReadFile { path: String, detail: String },
    Parse { path: String, detail: String },
    Serialize { detail: String },
    WriteFile { path: String, detail: String },
    Rename { path: String, detail: String },
}

/// The text of a [`ConfigError`].
pub open spec fn config_message(e: ConfigError) -> Seq<char> {
    match e {
        ConfigError::NoDataDir => "Could not determine application data directory"@,
        ConfigError::CreateDir { path, detail } => "Failed to create data directory `"@ + path@
            + "`: "@ + detail@,
        ConfigError::ReadFile { path, detail } => "Failed to read config file `"@ + path@ + "`: "@
            + detail@,
        ConfigError::Parse { path, detail } => "Failed to parse config file `"@ + path@ + "`: "@
            + detail@,
        ConfigError::Serialize { detail } => "Failed to serialize config: "@ + detail@,
        ConfigError::WriteFile { path, detail } => "Failed to write config file `"@ + path@
            + "`: "@ + detail@,
        ConfigError::Rename { path, detail } => "Failed to rename temp config to final path `"@
            + path@ + "`: "@ + detail@,
    }
}

fn located(what: &str, path: &str, detail: &str) -> (r: String)
    ensures
        r@ == what@ + path@ + "`: "@ + detail@,
{
    let mut r: String = concat3(what, path, "`: ");
    r.append(detail);
    r
}

impl ConfigError {
    /// The message shown to the user.
    pub fn message(&self) -> (r: String)
        ensures
            r@ == config_message(*self),
    {
        match self {
            ConfigError::NoDataDir => "Could not determine application data directory".to_owned(),
            ConfigError::CreateDir { path, detail } => located(
                "Failed to create data directory `",
                path,
                detail,
            ),
            ConfigError::ReadFile { path, detail } => located(
                "Failed to read config file `",
                path,
                detail,
            ),
            ConfigError::Parse { path, detail } => located(
                "Failed to parse config file `",
                path,
                detail,
            ),
            ConfigError::Serialize { detail } => concat2("Failed to serialize config: ", detail),
            ConfigError::WriteFile { path, detail } => located(
                "Failed to write config file `",
                path,
                detail,
            ),
            ConfigError::Rename { path, detail } => located(
                "Failed to rename temp config to final path `",
                path,
                detail,
            ),
        }
    }
}

// ── Sections ────────────────────────────────────────────────────────────────

/// The name of this machine, from `hostname::get`, with what is not Unicode
/// replaced. Nothing is stated of the result: it depends on the machine.
#[verifier::external_body]
fn host_name() -> (r: Option<String>)
{
    match hostname::get() {
        Ok(h) => Some(h.to_string_lossy().into_owned()),
        Err(_) => None,
    }
}

/// The device id of a machine.
pub open spec fn device_id_of(host: Option<Seq<char>>) -> Seq<char> {
    "immichsync-"@ + match host {
        Some(h) => h,
        None => "unknown"@,
    }
}

/// The device id of a machine with this name.
pub fn device_id_for(host: Option<String>) -> (r: String)
    ensures
        r@ == device_id_of(text::opt_text(host)),
{
    match host {
        Some(h) => concat2("immichsync-", &h),
        None => concat2("immichsync-", "unknown"),
    }
}

/// The device id of this machine.
pub fn default_device_id() -> (r: String)
    ensures
        exists|host: Option<Seq<char>>| r@ == #[trigger] device_id_of(host),
{
    device_id_for(host_name())
}

/// Server connection settings.
#[derive(Debug)]
pub struct ServerConfig {
    /// Base URL of the server; empty until it is configured.
    pub url: String,
    /// API key, in plain text.
    pub api_key: String,
    /// Device id sent with every upload.
    pub device_id: String,
}

impl ServerConfig {
    /// Whether the settings are the defaults of a machine with this name.
    pub open spec fn is_default_for(self, host: Option<Seq<char>>) -> bool {
        &&& self.url@ == ""@
        &&& self.api_key@ == ""@
        &&& self.device_id@ == device_id_of(host)
    }

    /// The defaults of a machine with this name.
    pub fn for_host(host: Option<String>) -> (r: ServerConfig)
        ensures
            r.is_default_for(text::opt_text(host)),
    {
        ServerConfig {
            url: "".to_owned(),
            api_key: "".to_owned(),
            device_id: device_id_for(host),
        }
    }
}

impl Default for ServerConfig {
    fn default() -> (r: ServerConfig)
        ensures
            exists|host: Option<Seq<char>>| #[trigger] r.is_default_for(host),
    {
        ServerConfig::for_host(host_name())
    }
}

impl Clone for ServerConfig {
    fn clone(&self) -> (r: Self)
        ensures
            r == *self,
    {
        ServerConfig {
            url: self.url.clone(),
            api_key: self.api_key.clone(),
            device_id: self.device_id.clone(),
        }
    }
}

/// Upload settings.
#[derive(Debug)]
pub struct UploadConfig {
    /// Number of simultaneous uploads.
    pub concurrency: u32,
    /// Upload bandwidth in KB/s; 0 means unlimited.
    pub bandwidth_limit_kbps: u64,
    /// `newest_first` or `oldest_first`.
    pub order: String,
    /// Failures after which an entry is given up.
    pub max_retries: u32,
    /// Timeout of a request in seconds.
    pub timeout_secs: u64,
    /// Days that a trashed file is kept.
    pub trash_retention_days: u32,
}

impl Default for UploadConfig {
    fn default() -> (r: UploadConfig)
        ensures
            r.concurrency == 2,
            r.bandwidth_limit_kbps == 0,
            r.order@ == "newest_first"@,
            r.max_retries == 5,
            r.timeout_secs == 300,
            r.trash_retention_days == 14,
    {
        UploadConfig {
            concurrency: 2,
            bandwidth_limit_kbps: 0,
            order: "newest_first".to_owned(),
            max_retries: 5,
            timeout_secs: 300,
            trash_retention_days: 14,
        }
    }
}

impl UploadConfig {
    /// The order in which queued files are uploaded.
    pub fn claim_order(&self) -> (r: UploadOrder)
        ensures
            r == UploadOrder::decoded(self.order@),
    {
        UploadOrder::from_str(&self.order)
    }
}

impl Clone for UploadConfig {
    fn clone(&self) -> (r: Self)
        ensures
            r == *self,
    {
        UploadConfig {
            concurrency: self.concurrency,
            bandwidth_limit_kbps: self.bandwidth_limit_kbps,
            order: self.order.clone(),
            max_retries: self.max_retries,
            timeout_secs: self.timeout_secs,
            trash_retention_days: self.trash_retention_days,
        }
    }
}

/// Removable-device settings.
#[derive(Debug)]
pub struct DevicesConfig {
    /// Start watching newly inserted devices.
    pub auto_watch: bool,
    /// Watch a device only if it has a DCIM folder.
    pub look_for_dcim: bool,
    /// `auto`, `ask` or `ignore`.
    pub on_insert: String,
}

impl Default for DevicesConfig {
    fn default() -> (r: DevicesConfig)
        ensures
            r.auto_watch,
            r.look_for_dcim,
            r.on_insert@ == "auto"@,
    {
        DevicesConfig { auto_watch: true, look_for_dcim: true, on_insert: "auto".to_owned() }
    }
}

impl Clone for DevicesConfig {
    fn clone(&self) -> (r: Self)
        ensures
            r == *self,
    {
        DevicesConfig {
            auto_watch: self.auto_watch,
            look_for_dcim: self.look_for_dcim,
            on_insert: self.on_insert.clone(),
        }
    }
}

/// Tray and notification settings.
#[derive(Debug, Clone, Copy, PartialEq, Eq, Structural)]
pub struct UiConfig {
    /// Start with Windows.
    pub start_with_windows: bool,
    /// Minimize to the tray when the settings window is closed.
    pub minimize_to_tray: bool,
    /// Show notifications.
    pub show_notifications: bool,
    /// Show a notification when a batch of uploads completes.
    pub notification_on_complete: bool,
    /// Run from the current location, without installing.
    pub portable_mode: bool,
}

impl Default for UiConfig {
    fn default() -> (r: UiConfig)
        ensures
            r == (UiConfig {
                start_with_windows: true,
                minimize_to_tray: true,
                show_notifications: true,
                notification_on_complete: true,
                portable_mode: false,
            }),
    {
        UiConfig {
            start_with_windows: true,
            minimize_to_tray: true,
            show_notifications: true,
            notification_on_complete: true,
            portable_mode: false,
        }
    }
}

/// Expert settings.
#[derive(Debug)]
pub struct AdvancedConfig {
    /// `trace`, `debug`, `info`, `warn` or `error`.
    pub log_level: String,
    /// Polling interval for network shares, in seconds.
    pub poll_interval_secs: u64,
    /// How long a file must be left alone before it counts as written.
    pub write_settle_ms: u64,
    /// Check for new releases.
    pub check_for_updates: bool,
    /// Hours between checks; 0 disables periodic checks.
    pub update_check_interval_hours: u32,
    /// Repository to check, as `owner/repo`.
    pub update_repo: String,
}

impl Default for AdvancedConfig {
    fn default() -> (r: AdvancedConfig)
        ensures
            r.log_level@ == "info"@,
            r.poll_interval_secs == 30,
            r.write_settle_ms == 2000,
            r.check_for_updates,
            r.update_check_interval_hours == 24,
            r.update_repo@ == "gumbees/immichsync"@,
    {
        AdvancedConfig {
            log_level: "info".to_owned(),
            poll_interval_secs: 30,
            write_settle_ms: 2000,
            check_for_updates: true,
            update_check_interval_hours: 24,
            update_repo: "gumbees/immichsync".to_owned(),
        }
    }
}

impl Clone for AdvancedConfig {
    fn clone(&self) -> (r: Self)
        ensures
            r == *self,
    {
        AdvancedConfig {
            log_level: self.log_level.clone(),
            poll_interval_secs: self.poll_interval_secs,
            write_settle_ms: self.write_settle_ms,
            check_for_updates: self.check_for_updates,
            update_check_interval_hours: self.update_check_interval_hours,
            update_repo: self.update_repo.clone(),
        }
    }
}

// ── Root ────────────────────────────────────────────────────────────────────

/// The configuration.
#[derive(Debug)]
pub struct Config {
    pub server: ServerConfig,
    pub upload: UploadConfig,
    pub devices: DevicesConfig,
    pub ui: UiConfig,
    pub advanced: AdvancedConfig,
}

impl Default for Config {
    fn default() -> (r: Config)
        ensures
            exists|host: Option<Seq<char>>| #[trigger] r.server.is_default_for(host),
            r.upload.concurrency == 2,
            r.upload.bandwidth_limit_kbps == 0,
            r.upload.order@ == "newest_first"@,
            r.upload.max_retries == 5,
            r.upload.timeout_secs == 300,
            r.upload.trash_retention_days == 14,
            r.devices.auto_watch,
            r.devices.look_for_dcim,
            r.devices.on_insert@ == "auto"@,
            r.ui == (UiConfig {
                start_with_windows: true,
                minimize_to_tray: true,
                show_notifications: true,
                notification_on_complete: true,
                portable_mode: false,
            }),
            r.advanced.log_level@ == "info"@,
            r.advanced.poll_interval_secs == 30,
            r.advanced.write_settle_ms == 2000,
            r.advanced.check_for_updates,
            r.advanced.update_check_interval_hours == 24,
            r.advanced.update_repo@ == "gumbees/immichsync"@,
    {
        let server: ServerConfig = ServerConfig::default();
        let ghost host = choose|host: Option<Seq<char>>| #[trigger] server.is_default_for(host);
        let r: Config = Config {
            server,
            upload: UploadConfig::default(),
            devices: DevicesConfig::default(),
            ui: UiConfig::default(),
            advanced: AdvancedConfig::default(),
        };
        assert(r.server.is_default_for(host));
        r
    }
}

impl Clone for Config {
    fn clone(&self) -> (r: Self)
        ensures
            r == *self,
    {
        Config {
            server: self.server.clone(),
            upload: self.upload.clone(),
            devices: self.devices.clone(),
            ui: self.ui,
            advanced: self.advanced.clone(),
        }
    }
}

/// The roaming application data directory, from `dirs::config_dir`. Nothing is
/// stated of the result: it depends on the machine.
#[verifier::external_body]
pub(crate) fn roaming_base() -> (r: Option<String>)
{
    dirs::config_dir().map(|p| p.to_string_lossy().into_owned())
}

/// The local application data directory, from `dirs::data_local_dir`. Nothing
/// is stated of the result: it depends on the machine.
#[verifier::external_body]
pub(crate) fn local_base() -> (r: Option<String>)
{
    dirs::data_local_dir().map(|p| p.to_string_lossy().into_owned())
}

/// The directory of this application below an application data directory.
pub open spec fn app_dir(base: Seq<char>) -> Seq<char> {
    paths::child(paths::child(base, "bees-roadhouse"@), "immichsync"@)
}

/// The directory of this application below `base`.
pub fn app_dir_in(base: Option<String>) -> (r: Result<String, ConfigError>)
    ensures
        match base {
            Some(b) => r matches Ok(d) && d@ == app_dir(b@),
            None => r == Err::<String, ConfigError>(ConfigError::NoDataDir),
        },
{
    match base {
        Some(b) => Ok(child_path(&child_path(&b, "bees-roadhouse"), "immichsync")),
        None => Err(ConfigError::NoDataDir),
    }
}

/// The directory of the executable below a local application data directory.
pub open spec fn program_dir(base: Seq<char>) -> Seq<char> {
    paths::child(paths::child(base, "Programs"@), "immichsync"@)
}

/// The directory of the executable below `base`.
pub fn program_dir_in(base: Option<String>) -> (r: Result<String, ConfigError>)
    ensures
        match base {
            Some(b) => r matches Ok(d) && d@ == program_dir(b@),
            None => r == Err::<String, ConfigError>(ConfigError::NoDataDir),
        },
{
    match base {
        Some(b) => Ok(child_path(&child_path(&b, "Programs"), "immichsync")),
        None => Err(ConfigError::NoDataDir),
    }
}

/// The configuration file of the directory `dir`.
pub fn config_file_in(dir: &str) -> (r: String)
    ensures
        r@ == paths::child(dir@, "config.toml"@),
{
    child_path(dir, "config.toml")
}

/// Whether an API key has to be encrypted before it is written.
pub open spec fn key_in_plain_text(key: Seq<char>) -> bool {
    key.len() > 0 && !encryption::marked_encrypted(key)
}

/// The API key as it is written to disk. `encrypted` is what the encryption gave;
/// a key that could not be encrypted is left out.
pub open spec fn written_key(key: Seq<char>, encrypted: Option<Seq<char>>) -> Seq<char> {
    if !key_in_plain_text(key) {
        key
    } else if encrypted is Some && encryption::marked_encrypted(encrypted->0) {
        encrypted->0
    } else {
        ""@
    }
}

/// The API key in plain text. `decrypted` is what the decryption gave; a key
/// that cannot be decrypted is cleared.
pub open spec fn loaded_key(key: Seq<char>, decrypted: Option<Seq<char>>) -> Seq<char> {
    if encryption::marked_encrypted(key) {
        match decrypted {
            Some(k) => k,
            None => ""@,
        }
    } else {
        key
    }
}

/// Whether two configurations are the same but for their API keys.
pub open spec fn same_but_key(a: Config, b: Config) -> bool {
    &&& a.server.url == b.server.url
    &&& a.server.device_id == b.server.device_id
    &&& a.upload == b.upload
    &&& a.devices == b.devices
    &&& a.ui == b.ui
    &&& a.advanced == b.advanced
}

/// Whether `stored` is what is written of the configuration `c`. `encrypted` is
/// what the encryption of the API key gave.
pub open spec fn is_written(c: Config, encrypted: Option<Seq<char>>, stored: Config) -> bool {
    same_but_key(stored, c) && stored.server.api_key@ == written_key(c.server.api_key@, encrypted)
}

/// Whether `c` is what is made of the configuration `stored` that was read.
/// `decrypted` is what the decryption of the API key gave.
pub open spec fn is_loaded(stored: Config, decrypted: Option<Seq<char>>, c: Config) -> bool {
    same_but_key(c, stored) && c.server.api_key@ == loaded_key(stored.server.api_key@, decrypted)
}

/// No API key is written in plain text, whatever came of the encryption.
pub proof fn law_key_is_never_written_in_plain_text(key: Seq<char>, encrypted: Option<Seq<char>>)
    ensures
        !key_in_plain_text(written_key(key, encrypted)),
        key_in_plain_text(key) ==> written_key(key, encrypted) != key,
{
    reveal_strlit("");
}

/// An API key that was encrypted reads as before after it was saved and loaded,
/// where it decrypts to itself. A key that looks like an encrypted one is left
/// out.
pub proof fn law_saved_key_reads_back(
    key: Seq<char>,
    encrypted: Option<Seq<char>>,
    decrypted: Option<Seq<char>>,
)
    requires
        !encryption::marked_encrypted(key),
        key.len() > 0 ==> encrypted is Some && encryption::marked_encrypted(encrypted->0)
            && decrypted == Some(key),
    ensures
        loaded_key(written_key(key, encrypted), decrypted) == key,
{
}

/// A configuration that was saved loads as it was: every field is the same, and
/// the API key reads in plain text, while what was written holds it encrypted or
/// empty. Encryption and decryption have to work, and the key must not look like
/// an encrypted one.
pub proof fn law_saved_configuration_loads_back(
    c: Config,
    encrypted: Option<Seq<char>>,
    stored: Config,
    decrypted: Option<Seq<char>>,
    loaded: Config,
)
    requires
        is_written(c, encrypted, stored),
        is_loaded(stored, decrypted, loaded),
        !encryption::marked_encrypted(c.server.api_key@),
        c.server.api_key@.len() > 0 ==> encrypted is Some && encryption::marked_encrypted(
            encrypted->0,
        ) && decrypted == Some(c.server.api_key@),
    ensures
        same_but_key(loaded, c),
        loaded.server.api_key@ == c.server.api_key@,
        stored.server.api_key@.len() == 0 || encryption::marked_encrypted(stored.server.api_key@),
{
    law_key_is_never_written_in_plain_text(c.server.api_key@, encrypted);
    law_saved_key_reads_back(c.server.api_key@, encrypted, decrypted);
}

impl Config {
    /// The directory of the configuration file. It may not exist yet.
    pub fn data_dir() -> (r: Result<String, ConfigError>)
        ensures
            match r {
                Ok(d) => exists|base: Seq<char>| d@ == #[trigger] app_dir(base),
                Err(e) => e is NoDataDir,
            },
    {
        app_dir_in(roaming_base())
    }

    /// The directory of machine-local state. It may not exist yet.
    pub fn local_data_dir() -> (r: Result<String, ConfigError>)
        ensures
            match r {
                Ok(d) => exists|base: Seq<char>| d@ == #[trigger] app_dir(base),
                Err(e) => e is NoDataDir,
            },
    {
        app_dir_in(local_base())
    }

    /// The directory of the installed executable. It may not exist yet.
    pub fn install_dir() -> (r: Result<String, ConfigError>)
        ensures
            match r {
                Ok(d) => exists|base: Seq<char>| d@ == #[trigger] program_dir(base),
                Err(e) => e is NoDataDir,
            },
    {
        program_dir_in(local_base())
    }

    /// The path of the configuration file.
    pub fn config_path() -> (r: Result<String, ConfigError>)
        ensures
            match r {
                Ok(p) => exists|base: Seq<char>|
                    p@ == paths::child(#[trigger] app_dir(base), "config.toml"@),
                Err(e) => e is NoDataDir,
            },
    {
        match Config::data_dir() {
            Ok(d) => Ok(config_file_in(&d)),
            Err(e) => Err(e),
        }
    }

    /// The file that a configuration is written to before it replaces `path`.
    pub fn temp_path(path: &str) -> (r: String)
        ensures
            r@ == path@ + ".tmp"@,
    {
        concat2(path, ".tmp")
    }

    /// Whether the API key, as read from disk, has to be decrypted.
    pub fn needs_decryption(&self) -> (r: bool)
        ensures
            r == encryption::marked_encrypted(self.server.api_key@),
    {
        is_encrypted(&self.server.api_key)
    }

    /// The configuration with the API key in plain text. `decrypted` is what
    /// the decryption gave; a key that cannot be decrypted is cleared.
    pub fn with_decrypted_key(self, decrypted: Option<String>) -> (r: Config)
        ensures
            is_loaded(self, text::opt_text(decrypted), r),
            !encryption::marked_encrypted(self.server.api_key@) ==> r == self,
    {
        let mut c: Config = self;
        if is_encrypted(&c.server.api_key) {
            c.server.api_key = match decrypted {
                Some(k) => k,
                None => "".to_owned(),
            };
        }
        c
    }

    /// Whether the API key has to be encrypted before the configuration is
    /// written.
    pub fn needs_encryption(&self) -> (r: bool)
        ensures
            r == key_in_plain_text(self.server.api_key@),
    {
        !self.server.api_key.as_str().is_empty() && !is_encrypted(&self.server.api_key)
    }

    /// The configuration as it is written. `encrypted` is what the encryption
    /// of the API key gave; a key that could not be encrypted is left out, so
    /// that what is written holds no key in plain text.
    pub fn for_storage(&self, encrypted: Option<String>) -> (r: Config)
        ensures
            is_written(*self, text::opt_text(encrypted), r),
            r.server.api_key@.len() == 0 || encryption::marked_encrypted(r.server.api_key@),
    {
        let mut c: Config = self.clone();
        if self.needs_encryption() {
            c.server.api_key = match encrypted {
                Some(e) => {
                    if is_encrypted(&e) {
                        e
                    } else {
                        "".to_owned()
                    }
                },
                None => "".to_owned(),
            };
        }
        proof {
            law_key_is_never_written_in_plain_text(
                self.server.api_key@,
                text::opt_text(encrypted),
            );
        }
        c
    }
}

// ── Laws ────────────────────────────────────────────────────────────────────

/// A key in plain text is written as it was encrypted, and left out where it
/// could not be; one that is encrypted already, or empty, is written as it is.
pub proof fn law_key_is_written_encrypted(key: Seq<char>, encrypted: Seq<char>)
    ensures
        key.len() > 0 && !encryption::marked_encrypted(key) && encryption::marked_encrypted(
            encrypted,
        ) ==> written_key(key, Some(encrypted)) == encrypted,
        key.len() > 0 && !encryption::marked_encrypted(key) ==> written_key(key, None) == ""@,
        encryption::marked_encrypted(key) ==> written_key(key, Some(encrypted)) == key
            && written_key(key, None) == key,
        key.len() == 0 ==> written_key(key, Some(encrypted)) == key,
{
}

/// A stored key that is encrypted is used as it was decrypted, and as none where
/// it could not be; one that is not encrypted is used as it is.
pub proof fn law_stored_key_is_decrypted(key: Seq<char>, decrypted: Seq<char>)
    ensures
        encryption::marked_encrypted(key) ==> loaded_key(key, Some(decrypted)) == decrypted
            && loaded_key(key, None) == ""@,
        !encryption::marked_encrypted(key) ==> loaded_key(key, Some(decrypted)) == key
            && loaded_key(key, None) == key,
{
}

/// Saving and loading touch the key alone: every other setting stays as it is.
pub proof fn law_only_the_key_changes(
    c: Config,
    stored: Config,
    encrypted: Option<Seq<char>>,
    loaded: Config,
    decrypted: Option<Seq<char>>,
)
    requires
        is_written(c, encrypted, stored),
        is_loaded(stored, decrypted, loaded),
    ensures
        stored.server.url == c.server.url && loaded.server.url == c.server.url,
        stored.server.device_id == c.server.device_id && loaded.server.device_id
            == c.server.device_id,
        stored.upload == c.upload && loaded.upload == c.upload,
        stored.devices == c.devices && loaded.devices == c.devices,
        stored.ui == c.ui && loaded.ui == c.ui,
        stored.advanced == c.advanced && loaded.advanced == c.advanced,
        stored.server.api_key@ == written_key(c.server.api_key@, encrypted),
        loaded.server.api_key@ == loaded_key(stored.server.api_key@, decrypted),
{
}

/// A device is named after its host.
pub proof fn law_device_is_named_after_its_host(host: Seq<char>)
    ensures
        device_id_of(Some(host)) == "immichsync-"@ + host,
        device_id_of(None) == "immichsync-"@ + "unknown"@,
{
}

/// The directories of the program lie below the base, and end in its name.
pub proof fn law_directories_lie_below_the_base(base: Seq<char>)
    ensures
        base.is_prefix_of(app_dir(base)),
        base.is_prefix_of(program_dir(base)),
        "immichsync"@ == app_dir(base).skip(app_dir(base).len() - "immichsync"@.len()),
        "immichsync"@ == program_dir(base).skip(program_dir(base).len() - "immichsync"@.len()),
        app_dir(base) == paths::child(paths::child(base, "bees-roadhouse"@), "immichsync"@),
        program_dir(base) == paths::child(paths::child(base, "Programs"@), "immichsync"@),
{
    let a = paths::child(base, "bees-roadhouse"@);
    let b = paths::child(base, "Programs"@);
    paths::law_child_is_below_its_directory(base, "bees-roadhouse"@);
    paths::law_child_is_below_its_directory(a, "immichsync"@);
    paths::law_child_is_below_its_directory(base, "Programs"@);
    paths::law_child_is_below_its_directory(b, "immichsync"@);
    assert(app_dir(base).take(base.len() as int) =~= a.take(base.len() as int));
    assert(program_dir(base).take(base.len() as int) =~= b.take(base.len() as int));
}

/// An error of the configuration ends with what went wrong.
pub proof fn law_configuration_error_ends_with_its_cause(path: String, detail: String)
    ensures
        config_message(ConfigError::CreateDir { path, detail }).skip(
            config_message(ConfigError::CreateDir { path, detail }).len() - detail@.len(),
        ) == detail@,
        config_message(ConfigError::ReadFile { path, detail }).skip(
            config_message(ConfigError::ReadFile { path, detail }).len() - detail@.len(),
        ) == detail@,
        config_message(ConfigError::Parse { path, detail }).skip(
            config_message(ConfigError::Parse { path, detail }).len() - detail@.len(),
        ) == detail@,
        config_message(ConfigError::WriteFile { path, detail }).skip(
            config_message(ConfigError::WriteFile { path, detail }).len() - detail@.len(),
        ) == detail@,
        config_message(ConfigError::Rename { path, detail }).skip(
            config_message(ConfigError::Rename { path, detail }).len() - detail@.len(),
        ) == detail@,
        config_message(ConfigError::Serialize { detail }).skip(
            config_message(ConfigError::Serialize { detail }).len() - detail@.len(),
        ) == detail@,
{
}

/// A server that is not configured has neither address nor key, and the device is
/// named after its host.
pub proof fn law_server_is_unconfigured_at_first(c: ServerConfig, host: Option<Seq<char>>)
    requires
        c.is_default_for(host),
    ensures
        c.url@ == ""@,
        c.api_key@ == ""@,
        c.device_id@ == device_id_of(host),
{
}

} // verus!
