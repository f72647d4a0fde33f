//! Watching folders and devices for new files.

pub mod device;
pub mod engine;
pub mod filter;
pub mod folder;
pub mod network;
