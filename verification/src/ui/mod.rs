//! Models of the tray, the notifications and the windows.

pub mod first_run;
pub mod install;
pub mod notifications;
pub mod settings;
pub mod trash_log;
pub mod tray;
pub mod update;
pub mod upload_log;
