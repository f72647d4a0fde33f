//! The connection to the server: its settings, and what a failed request means.

use vstd::prelude::*;

use crate::text;
use crate::text::{concat2, concat3, trim_end, u64_text};

verus! {

broadcast use vstd::seq::group_seq_axioms;

// ── Errors ──────────────────────────────────────────────────────────────────

/// Why a request failed.
#[derive(Debug)]
pub enum ApiError {
    /// The API key is wrong or missing.
    Auth(String),
    /// There is no such thing on the server.
    NotFound(String),
    /// The server failed.
    ServerError(String),
    /// The server could not be reached.
    Network(String),
    /// The server takes no more requests for now.
    RateLimit,
    /// The server did not take the request.
    BadRequest(String),
    /// Anything else.
    Unexpected(String),
}

/// The text of an [`ApiError`].
pub open spec fn api_message(e: ApiError) -> Seq<char> {
    match e {
        ApiError::Auth(m) => "authentication failed: "@ + m@,
        ApiError::NotFound(m) => "resource not found: "@ + m@,
        ApiError::ServerError(m) => "server error: "@ + m@,
        ApiError::Network(m) => "network error: "@ + m@,
        ApiError::RateLimit => "rate limited by server"@,
        ApiError::BadRequest(m) => "bad request: "@ + m@,
        ApiError::Unexpected(m) => "unexpected error: "@ + m@,
    }
}

impl ApiError {
    /// The message shown to the user.
    pub fn message(&self) -> (r: String)
        ensures
            r@ == api_message(*self),
    {
        match self {
            ApiError::Auth(m) => concat2("authentication failed: ", m),
            ApiError::NotFound(m) => concat2("resource not found: ", m),
            ApiError::ServerError(m) => concat2("server error: ", m),
            ApiError::Network(m) => concat2("network error: ", m),
            ApiError::RateLimit => "rate limited by server".to_owned(),
            ApiError::BadRequest(m) => concat2("bad request: ", m),
            ApiError::Unexpected(m) => concat2("unexpected error: ", m),
        }
    }
}

/// What an answer with an error status is: the error, without its text.
#[derive(Debug, Clone, Copy, PartialEq, Eq, Structural)]
pub enum ErrorKind {
    Auth,
    NotFound,
    ServerError,
    RateLimit,
    BadRequest,
    Unexpected,
}

/// The error that a status stands for.
pub open spec fn kind_of_status(status: u16) -> ErrorKind {
    if status == 400 {
        ErrorKind::BadRequest
    } else if status == 401 {
        ErrorKind::Auth
    } else if status == 404 {
        ErrorKind::NotFound
    } else if status == 429 {
        ErrorKind::RateLimit
    } else if 500 <= status <= 599 {
        ErrorKind::ServerError
    } else {
        ErrorKind::Unexpected
    }
}

/// A status as `reqwest::StatusCode` displays it: the number and its meaning, or
/// nothing where the number is no status.
pub uninterp spec fn status_display(status: u16) -> Option<Seq<char>>;

/// `reqwest::StatusCode::from_u16` and the `Display` of the status: the number
/// and its meaning, `None` where the number is no status. The numbers from 100
/// to 999 are.
#[verifier::external_body]
fn status_text(status: u16) -> (r: Option<String>)
    ensures
        text::opt_text(r) == status_display(status),
        r is Some == (100 <= status && status <= 999),
{
    match reqwest::StatusCode::from_u16(status) {
        Ok(s) => Some(s.to_string()),
        Err(_) => None,
    }
}

/// What an error says: the body of the answer, after the status where the error
/// alone does not tell it.
pub open spec fn error_text(status: u16, body: Seq<char>) -> Seq<char> {
    match kind_of_status(status) {
        ErrorKind::ServerError => "HTTP "@ + (match status_display(status) {
            Some(s) => s,
            None => text::decimal(status as nat),
        }) + ": "@ + body,
        ErrorKind::Unexpected => "HTTP "@ + text::decimal(status as nat) + ": "@ + body,
        _ => body,
    }
}

/// Whether `e` is the error of an answer with this status and body.
pub open spec fn is_error_of(e: ApiError, status: u16, body: Seq<char>) -> bool {
    match kind_of_status(status) {
        ErrorKind::Auth => e matches ApiError::Auth(m) && m@ == error_text(status, body),
        ErrorKind::NotFound => e matches ApiError::NotFound(m) && m@ == error_text(status, body),
        ErrorKind::ServerError => e matches ApiError::ServerError(m) && m@ == error_text(
            status,
            body,
        ),
        ErrorKind::RateLimit => e is RateLimit,
        ErrorKind::BadRequest => e matches ApiError::BadRequest(m) && m@ == error_text(
            status,
            body,
        ),
        ErrorKind::Unexpected => e matches ApiError::Unexpected(m) && m@ == error_text(
            status,
            body,
        ),
    }
}

/// What the body of an answer counts as where it cannot be read.
pub const UNREADABLE_BODY: &'static str = "<unreadable body>";

/// The error of an answer with this status. `body` is the body of the answer,
/// where it could be read.
pub fn map_status_error(status: u16, body: Option<String>) -> (r: ApiError)
    ensures
        is_error_of(
            r,
            status,
            match body {
                Some(b) => b@,
                None => UNREADABLE_BODY@,
            },
        ),
{
    let body: String = match body {
        Some(b) => b,
        None => UNREADABLE_BODY.to_owned(),
    };
    if status == 400 {
        ApiError::BadRequest(body)
    } else if status == 401 {
        ApiError::Auth(body)
    } else if status == 404 {
        ApiError::NotFound(body)
    } else if status == 429 {
        ApiError::RateLimit
    } else if 500 <= status && status <= 599 {
        let shown: String = match status_text(status) {
            Some(s) => s,
            None => u64_text(status as u64),
        };
        let mut m: String = concat3("HTTP ", &shown, ": ");
        m.append(&body);
        ApiError::ServerError(m)
    } else {
        let mut m: String = concat3("HTTP ", &u64_text(status as u64), ": ");
        m.append(&body);
        ApiError::Unexpected(m)
    }
}

/// Whether a status says that a request succeeded.
pub open spec fn is_success(status: u16) -> bool {
    200 <= status <= 299
}

/// Whether a request succeeded; its error where it did not. `body` is the body
/// of the answer, where it could be read.
pub fn check_status(status: u16, body: Option<String>) -> (r: Result<(), ApiError>)
    ensures
        r is Ok == is_success(status),
        r matches Err(e) ==> is_error_of(
            e,
            status,
            match body {
                Some(b) => b@,
                None => UNREADABLE_BODY@,
            },
        ),
{
    if 200 <= status && status <= 299 {
        Ok(())
    } else {
        Err(map_status_error(status, body))
    }
}

// ── Client ──────────────────────────────────────────────────────────────────

/// Seconds without an answer after which a request is given up, where nothing
/// else is said.
pub const DEFAULT_TIMEOUT_SECS: u64 = 3600;

/// The header that carries the API key.
pub const API_KEY_HEADER: &'static str = "x-api-key";

/// Seconds that making a connection may take.
pub const CONNECT_TIMEOUT_SECS: u64 = 30;

/// Seconds between two signs of life on a quiet connection.
pub const TCP_KEEPALIVE_SECS: u64 = 60;

/// Seconds after which an unused connection is closed.
pub const POOL_IDLE_TIMEOUT_SECS: u64 = 120;

/// Whether a character may stand in a header.
pub open spec fn header_char(c: char) -> bool {
    c == '\t' || (c as u32 >= 32 && c as u32 != 127)
}

/// Whether a text may stand in a header.
pub open spec fn header_text(s: Seq<char>) -> bool {
    forall|i: int| 0 <= i < s.len() ==> header_char(#[trigger] s[i])
}

/// `reqwest::header::HeaderValue::from_str`: whether a text may stand in a
/// header, or the message that it may not. Control characters other than the
/// tab may not.
#[verifier::external_body]
fn header_value(s: &str) -> (r: Result<(), String>)
    ensures
        r is Ok == header_text(s@),
        r matches Err(m) ==> m@ == "failed to parse header value"@,
{
    match reqwest::header::HeaderValue::from_str(s) {
        Ok(_) => Ok(()),
        Err(e) => Err(e.to_string()),
    }
}

/// The settings of a connection to the server.
#[derive(Debug)]
pub struct ImmichClient {
    base_url: String,
    api_key: String,
    bandwidth_limit_bps: u64,
    timeout_secs: u64,
}

/// The contents of an [`ImmichClient`].
#[verifier::ext_equal]
pub struct ClientModel {
    /// The address of the server, without a slash at the end.
    pub base_url: Seq<char>,
    pub api_key: Seq<char>,
    /// Bytes a second; 0 where there is no limit.
    pub bandwidth_limit_bps: u64,
    pub timeout_secs: u64,
}

impl View for ImmichClient {
    type V = ClientModel;

    closed spec fn view(&self) -> ClientModel {
        ClientModel {
            base_url: self.base_url@,
            api_key: self.api_key@,
            bandwidth_limit_bps: self.bandwidth_limit_bps,
            timeout_secs: self.timeout_secs,
        }
    }
}

impl ImmichClient {
    /// A connection without a limit and with the usual timeout. An API key that
    /// may not stand in a header is refused.
    pub fn new(base_url: &str, api_key: &str) -> (r: Result<ImmichClient, ApiError>)
        ensures
            r is Ok == header_text(api_key@),
            r matches Ok(c) ==> c@ == (ClientModel {
                base_url: text::trimmed_end(base_url@, '/'),
                api_key: api_key@,
                bandwidth_limit_bps: 0,
                timeout_secs: DEFAULT_TIMEOUT_SECS,
            }),
            r matches Err(e) ==> (e matches ApiError::Unexpected(m) && m@
                == "invalid API key characters: failed to parse header value"@),
    {
        ImmichClient::with_bandwidth_limit(base_url, api_key, 0, DEFAULT_TIMEOUT_SECS)
    }

    /// A connection with a limit in kilobytes a second, 0 for none, and a
    /// timeout. An API key that may not stand in a header is refused.
    pub fn with_bandwidth_limit(
        base_url: &str,
        api_key: &str,
        bandwidth_limit_kbps: u64,
        timeout_secs: u64,
    ) -> (r: Result<ImmichClient, ApiError>)
        requires
            bandwidth_limit_kbps * 1024 <= u64::MAX,
        ensures
            r is Ok == header_text(api_key@),
            r matches Ok(c) ==> c@ == (ClientModel {
                base_url: text::trimmed_end(base_url@, '/'),
                api_key: api_key@,
                bandwidth_limit_bps: (bandwidth_limit_kbps * 1024) as u64,
                timeout_secs,
            }),
            r matches Err(e) ==> (e matches ApiError::Unexpected(m) && m@
                == "invalid API key characters: failed to parse header value"@),
    {
        match header_value(api_key) {
            Ok(_) => Ok(
                ImmichClient {
                    base_url: trim_end(base_url, '/'),
                    api_key: api_key.to_owned(),
                    bandwidth_limit_bps: bandwidth_limit_kbps * 1024,
                    timeout_secs,
                },
            ),
            Err(m) => {
                let text: String = concat2("invalid API key characters: ", &m);
                proof {
                    reveal_strlit("invalid API key characters: ");
                    reveal_strlit("failed to parse header value");
                    reveal_strlit("invalid API key characters: failed to parse header value");
                    assert(text@
                        =~= "invalid API key characters: failed to parse header value"@);
                }
                Err(ApiError::Unexpected(text))
            },
        }
    }

    /// The address of a resource. `path` begins with a slash.
    pub fn url(&self, path: &str) -> (r: String)
        ensures
            r@ == self@.base_url + path@,
    {
        concat2(&self.base_url, path)
    }

    /// The API key.
    pub fn api_key(&self) -> (r: &str)
        ensures
            r@ == self@.api_key,
    {
        self.api_key.as_str()
    }

    /// Seconds without an answer after which a request is given up.
    pub fn timeout_secs(&self) -> (r: u64)
        ensures
            r == self@.timeout_secs,
    {
        self.timeout_secs
    }

    /// Milliseconds to wait after a piece of a file was sent, so that no more
    /// bytes are sent than the limit allows.
    pub fn throttle_ms(&self, chunk_len: u64) -> (r: u64)
        requires
            chunk_len * 1000 <= u64::MAX,
        ensures
            r == (if self@.bandwidth_limit_bps == 0 {
                0
            } else {
                chunk_len * 1000 / self@.bandwidth_limit_bps as int
            }),
    {
        if self.bandwidth_limit_bps == 0 {
            0
        } else {
            chunk_len * 1000 / self.bandwidth_limit_bps
        }
    }
}

/// The wait after a piece of a file keeps the rate at the limit, to a
/// millisecond: a piece and its wait take at least as long as the limit asks,
/// less one millisecond.
pub proof fn law_throttle_keeps_the_limit(chunk_len: int, limit_bps: int)
    requires
        0 <= chunk_len,
        0 < limit_bps,
    ensures
        (chunk_len * 1000 / limit_bps + 1) * limit_bps > chunk_len * 1000,
        (chunk_len * 1000 / limit_bps) * limit_bps <= chunk_len * 1000,
{
    let n = chunk_len * 1000;
    assert((n / limit_bps + 1) * limit_bps > n && (n / limit_bps) * limit_bps <= n)
        by (nonlinear_arith)
        requires
            0 <= n,
            0 < limit_bps,
    ;
}

/// Each refusal of the server is told by its status, and a status means success
/// just from 200 to 299.
pub proof fn law_refusals_are_told_by_their_status(status: u16)
    ensures
        kind_of_status(status) is BadRequest <==> status == 400,
        kind_of_status(status) is Auth <==> status == 401,
        kind_of_status(status) is NotFound <==> status == 404,
        kind_of_status(status) is RateLimit <==> status == 429,
        kind_of_status(status) is ServerError <==> 500 <= status <= 599,
        is_success(status) <==> 200 <= status <= 299,
        is_success(status) ==> kind_of_status(status) is Unexpected,
{
}

/// An error is of the kind that the status means, and says what the server
/// answered; where the status matters it says that too.
pub proof fn law_error_says_what_the_server_answered(e: ApiError, status: u16, body: Seq<char>)
    requires
        is_error_of(e, status, body),
    ensures
        status == 400 ==> (e matches ApiError::BadRequest(m) && m@ == body),
        status == 401 ==> (e matches ApiError::Auth(m) && m@ == body),
        status == 404 ==> (e matches ApiError::NotFound(m) && m@ == body),
        status == 429 ==> e is RateLimit,
        500 <= status <= 599 ==> (e matches ApiError::ServerError(m) && (status_display(
            status,
        ) matches Some(s) ==> m@ == "HTTP "@ + s + ": "@ + body)),
        status < 400 || 404 < status < 429 || 429 < status < 500 || status > 599 || status == 402
            || status == 403 ==> (e matches ApiError::Unexpected(m) && m@ == "HTTP "@
            + text::decimal(status as nat) + ": "@ + body),
{
}

/// A key can be sent where it holds no control characters but tabs, and only
/// there.
pub proof fn law_key_without_control_characters_can_be_sent(key: Seq<char>, k: int)
    ensures
        header_text(key) && 0 <= k < key.len() ==> key[k] as u32 == 9 || (key[k] as u32 >= 32
            && key[k] as u32 != 127),
        (forall|i: int|
            0 <= i < key.len() ==> (#[trigger] key[i]) as u32 >= 32 && key[i] as u32 != 127)
            ==> header_text(key),
        header_char('\t'),
{
    if header_text(key) && 0 <= k < key.len() {
        assert(header_char(key[k]));
    }
}

/// An error of the server ends with what it answered.
pub proof fn law_server_error_ends_with_its_cause(m: String)
    ensures
        api_message(ApiError::Auth(m)).skip(
            api_message(ApiError::Auth(m)).len() - m@.len(),
        ) == m@,
        api_message(ApiError::NotFound(m)).skip(
            api_message(ApiError::NotFound(m)).len() - m@.len(),
        ) == m@,
        api_message(ApiError::ServerError(m)).skip(
            api_message(ApiError::ServerError(m)).len() - m@.len(),
        ) == m@,
        api_message(ApiError::Network(m)).skip(
            api_message(ApiError::Network(m)).len() - m@.len(),
        ) == m@,
        api_message(ApiError::BadRequest(m)).skip(
            api_message(ApiError::BadRequest(m)).len() - m@.len(),
        ) == m@,
        api_message(ApiError::Unexpected(m)).skip(
            api_message(ApiError::Unexpected(m)).len() - m@.len(),
        ) == m@,
{
}

} // verus!
