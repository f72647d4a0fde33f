//! What the server says of itself and of the user.

use vstd::prelude::*;

use crate::text::str_eq;

verus! {

/// Where the server is pinged. No key is needed.
pub const PING_PATH: &'static str = "/api/server/ping";

/// Where the server tells about itself.
pub const ABOUT_PATH: &'static str = "/api/server/about";

/// Where the server tells whose key it is.
pub const USER_PATH: &'static str = "/api/users/me";

/// What the server tells about itself.
#[derive(Debug)]
pub struct ServerInfo {
    pub version: String,
    pub licensed: bool,
}

/// The user that an API key belongs to.
#[derive(Debug)]
pub struct UserInfo {
    pub id: String,
    pub email: String,
    pub name: String,
    pub is_admin: bool,
    /// Bytes that the user may store, where there is a limit.
    pub quota_size_in_bytes: Option<i64>,
    /// Bytes that the user has stored, where there is a limit.
    pub quota_usage_in_bytes: Option<i64>,
}

/// Whether the answer to a ping is that of an Immich server.
pub fn is_pong(answer: &str) -> (r: bool)
    ensures
        r == (answer@ == "pong"@),
{
    str_eq(answer, "pong")
}

} // verus!
