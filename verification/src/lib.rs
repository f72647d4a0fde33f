//! ImmichSync: watch folders for photos and videos, and upload them to an
//! Immich server.
//!
//! This crate holds the rules of the application: the upload queue and its
//! state machine, the watch filter, the retry and pruning policies, the tray
//! and settings models, the install and start-up decisions. It performs no
//! I/O. Every item states what it does in its contract.

pub mod api;
pub mod app;
pub mod clock;
pub mod db;
pub mod db_store;
pub mod config;
pub mod paths;
pub mod platform;
pub mod startup;
pub mod text;
pub mod ui;
pub mod updater;
pub mod upload;
pub mod watch;
