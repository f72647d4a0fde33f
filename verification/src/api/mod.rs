//! The interface of the Immich server: what is asked, and what its answers
//! mean.

pub mod albums;
pub mod assets;
pub mod client;
pub mod server;
