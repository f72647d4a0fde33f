//! Upload pipeline: hash, deduplicate, queue, upload.

pub mod hasher;
pub mod item;
pub mod metadata;
pub mod pipeline;
pub mod queue;
pub mod trash;
pub mod worker;
