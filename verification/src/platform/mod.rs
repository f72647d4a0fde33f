//! Rules of the Windows integration.

pub mod autostart;
pub mod drives;
pub mod encryption;
pub mod install;
pub mod logs;
pub mod migration;
pub mod registry;
pub mod shortcuts;
pub mod single_instance;
pub mod uninstall;
pub mod wide;
