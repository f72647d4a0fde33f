//! The wizard that is shown at the first start.

use vstd::prelude::*;

use crate::config::{Config, ServerConfig, UiConfig};
use crate::text;

verus! {

/// A step of the wizard.
#[derive(Debug, Clone, Copy, PartialEq, Eq, Structural)]
pub enum WizardStep {
    Welcome,
    ServerConfig,
    FolderSetup,
    Autostart,
    Done,
}

/// The wizard. Whoever shows it binds its fields to controls.
pub struct WizardApp {
    pub step: WizardStep,
    /// The configuration that the wizard makes.
    pub config: Config,
    pub server_url: String,
    pub api_key: String,
    /// What the last test of the connection said.
    pub test_status: String,
    pub watch_folder: String,
    pub enable_autostart: bool,
}

/// What the wizard made.
pub struct WizardResult {
    /// The configuration, which is saved.
    pub config: Config,
    /// Whether the program starts with Windows.
    pub autostart: bool,
    /// The folder to watch, where one was given.
    pub folder: Option<String>,
}

/// The folder that the wizard proposes: the user's pictures, where the system
/// knows them.
pub fn default_pictures_folder(pictures: Option<String>) -> (r: String)
    ensures
        r@ == (match text::opt_text(pictures) {
            Some(p) => p,
            None => ""@,
        }),
{
    match pictures {
        Some(p) => p,
        None => "".to_owned(),
    }
}

/// Whether the wizard can go on: on the page of the server only once an address
/// and a key were entered.
pub open spec fn can_proceed(w: WizardApp) -> bool {
    w.step is ServerConfig ==> w.server_url@.len() > 0 && w.api_key@.len() > 0
}

/// The step after a step.
pub open spec fn next_step(s: WizardStep) -> WizardStep {
    match s {
        WizardStep::Welcome => WizardStep::ServerConfig,
        WizardStep::ServerConfig => WizardStep::FolderSetup,
        WizardStep::FolderSetup => WizardStep::Autostart,
        WizardStep::Autostart => WizardStep::Done,
        WizardStep::Done => WizardStep::Done,
    }
}

/// The step before a step, where the wizard can go back.
pub open spec fn previous_step(s: WizardStep) -> WizardStep {
    match s {
        WizardStep::ServerConfig => WizardStep::Welcome,
        WizardStep::FolderSetup => WizardStep::ServerConfig,
        WizardStep::Autostart => WizardStep::FolderSetup,
        _ => s,
    }
}

/// The wizard after it went on, where it can. Leaving the page of the server
/// takes the address and the key into the configuration.
pub open spec fn after_next(w: WizardApp) -> WizardApp {
    if !can_proceed(w) {
        w
    } else {
        WizardApp {
            step: next_step(w.step),
            config: if w.step is ServerConfig {
                Config {
                    server: ServerConfig {
                        url: w.server_url,
                        api_key: w.api_key,
                        ..w.config.server
                    },
                    ..w.config
                }
            } else {
                w.config
            },
            ..w
        }
    }
}

/// The wizard after it went back, where it can.
pub open spec fn after_back(w: WizardApp) -> WizardApp {
    WizardApp { step: previous_step(w.step), ..w }
}

/// Past the page of the server, the configuration has a server.
pub open spec fn has_server(w: WizardApp) -> bool {
    w.step is Welcome || w.step is ServerConfig || (w.config.server.url@.len() > 0
        && w.config.server.api_key@.len() > 0)
}

impl WizardApp {
    /// The wizard at its first page. `watch_folder` is the folder that it
    /// proposes.
    pub fn new(config: Config, watch_folder: String) -> (r: WizardApp)
        ensures
            r.step is Welcome,
            r.config == config,
            r.server_url@ == ""@,
            r.api_key@ == ""@,
            r.test_status@ == ""@,
            r.watch_folder == watch_folder,
            r.enable_autostart,
    {
        WizardApp {
            step: WizardStep::Welcome,
            config,
            server_url: "".to_owned(),
            api_key: "".to_owned(),
            test_status: "".to_owned(),
            watch_folder,
            enable_autostart: true,
        }
    }

    /// Whether the wizard can go on.
    pub fn may_proceed(&self) -> (r: bool)
        ensures
            r == can_proceed(*self),
    {
        match self.step {
            WizardStep::ServerConfig => !self.server_url.as_str().is_empty()
                && !self.api_key.as_str().is_empty(),
            _ => true,
        }
    }

    /// Go on, where the wizard can. Leaving the page of the server takes the
    /// address and the key into the configuration.
    pub fn next(&mut self)
        ensures
            *final(self) == after_next(*old(self)),
    {
        if !self.may_proceed() {
            return;
        }
        match self.step {
            WizardStep::Welcome => {
                self.step = WizardStep::ServerConfig;
            },
            WizardStep::ServerConfig => {
                self.config.server.url = self.server_url.clone();
                self.config.server.api_key = self.api_key.clone();
                self.step = WizardStep::FolderSetup;
            },
            WizardStep::FolderSetup => {
                self.step = WizardStep::Autostart;
            },
            WizardStep::Autostart => {
                self.step = WizardStep::Done;
            },
            WizardStep::Done => {},
        }
    }

    /// Go back, where the wizard can.
    pub fn back(&mut self)
        ensures
            *final(self) == after_back(*old(self)),
    {
        match self.step {
            WizardStep::ServerConfig => {
                self.step = WizardStep::Welcome;
            },
            WizardStep::FolderSetup => {
                self.step = WizardStep::ServerConfig;
            },
            WizardStep::Autostart => {
                self.step = WizardStep::FolderSetup;
            },
            _ => {},
        }
    }

    /// What the wizard made, once it is on its last page.
    pub fn finish(&self) -> (r: Option<WizardResult>)
        ensures
            r is Some == (self.step is Done),
            r matches Some(w) ==> {
                &&& w.config == (Config {
                    ui: UiConfig { start_with_windows: self.enable_autostart, ..self.config.ui },
                    ..self.config
                })
                &&& w.autostart == self.enable_autostart
                &&& text::opt_text(w.folder) == (if self.watch_folder@.len() == 0 {
                    None
                } else {
                    Some(self.watch_folder@)
                })
            },
    {
        match self.step {
            WizardStep::Done => {},
            _ => {
                return None;
            },
        }
        let mut config: Config = self.config.clone();
        config.ui.start_with_windows = self.enable_autostart;
        Some(
            WizardResult {
                config,
                autostart: self.enable_autostart,
                folder: if self.watch_folder.as_str().is_empty() {
                    None
                } else {
                    Some(self.watch_folder.clone())
                },
            },
        )
    }
}

/// The configuration that the wizard makes has a server: however the user goes
/// on and back, and whatever is entered in between, the pages after that of the
/// server are reached only with an address and a key.
pub proof fn law_wizard_configures_a_server(w: WizardApp, url: String, key: String)
    requires
        has_server(w),
    ensures
        has_server(after_next(w)),
        has_server(after_back(w)),
        has_server(WizardApp { server_url: url, api_key: key, ..w }),
{
}

/// The wizard goes from the welcome over the server, the folder and the autostart
/// to its end, and back the same way, but for the end, which it does not leave.
pub proof fn law_wizard_goes_step_by_step(s: WizardStep)
    ensures
        next_step(WizardStep::Welcome) is ServerConfig,
        next_step(WizardStep::ServerConfig) is FolderSetup,
        next_step(WizardStep::FolderSetup) is Autostart,
        next_step(WizardStep::Autostart) is Done,
        next_step(WizardStep::Done) is Done,
        !(s is Autostart) && !(s is Done) ==> previous_step(next_step(s)) == s,
        previous_step(WizardStep::Welcome) is Welcome,
        previous_step(WizardStep::Done) is Done,
{
}

/// The wizard stays at the server until its address and a key are entered; then
/// these, as they were entered, are what is configured. Nothing else changes on
/// the way, and nothing but the step on the way back.
pub proof fn law_entered_server_is_configured(w: WizardApp)
    ensures
        ({
            let n = after_next(w);
            let entered = w.server_url@.len() > 0 && w.api_key@.len() > 0;
            &&& w.step is ServerConfig && !entered ==> n == w
            &&& !(w.step is ServerConfig) || entered ==> n.step == next_step(w.step)
            &&& w.step is ServerConfig && entered ==> n.config.server.url == w.server_url
                && n.config.server.api_key == w.api_key && n.config.server.device_id
                == w.config.server.device_id
            &&& !(w.step is ServerConfig) ==> n.config == w.config
            &&& n.config.upload == w.config.upload && n.config.devices == w.config.devices
            &&& n.config.ui == w.config.ui && n.config.advanced == w.config.advanced
            &&& n.server_url == w.server_url && n.api_key == w.api_key
            &&& n.test_status == w.test_status && n.watch_folder == w.watch_folder
            &&& n.enable_autostart == w.enable_autostart
        }),
        after_back(w) == (WizardApp { step: previous_step(w.step), ..w }),
{
}

} // verus!
