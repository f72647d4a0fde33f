//! SHA-1 digests of file contents, for deduplication.
//!
//! A file is fed to a [`StreamHasher`] chunk by chunk, so that it is never held
//! in memory as a whole. The digest is written in lower-case hexadecimal, which
//! is the form of the server's checksums.

use vstd::prelude::*;

use sha1::Digest;

use crate::text::concat3;

verus! {

broadcast use vstd::seq::group_seq_axioms;

/// Why a file could not be hashed. `detail` is the message of the operating
/// system.
#[derive(Debug)]
pub enum HasherError {
    Open { path: String, detail: String },
    Read { path: String, detail: String },
}

/// The text of a [`HasherError`].
pub open spec fn hasher_message(e: HasherError) -> Seq<char> {
    match e {
        HasherError::Open { path, detail } => "Failed to open file `"@ + path@
            + "` for hashing: "@ + detail@,
        HasherError::Read { path, detail } => "Failed to read file `"@ + path@
            + "` while hashing: "@ + detail@,
    }
}

impl HasherError {
    /// The message shown to the user.
    pub fn message(&self) -> (r: String)
        ensures
            r@ == hasher_message(*self),
    {
        match self {
            HasherError::Open { path, detail } => {
                let mut r: String = concat3("Failed to open file `", path, "` for hashing: ");
                r.append(detail);
                r
            },
            HasherError::Read { path, detail } => {
                let mut r: String = concat3("Failed to read file `", path, "` while hashing: ");
                r.append(detail);
                r
            },
        }
    }
}

/// A SHA-1 computation under way, held by `sha1::Sha1`.
#[verifier::external_body]
pub struct StreamHasher {
    inner: sha1::Sha1,
}

/// The bytes that were fed to a [`StreamHasher`] so far.
pub uninterp spec fn bytes_fed(h: StreamHasher) -> Seq<u8>;

/// The SHA-1 digest of a sequence of bytes, as `sha1::Sha1` computes it.
pub uninterp spec fn sha1_digest(bytes: Seq<u8>) -> Seq<u8>;

/// `sha1::Sha1::new`: a computation that no byte was fed to.
#[verifier::external_body]
fn sha1_new() -> (h: StreamHasher)
    ensures
        bytes_fed(h) == Seq::<u8>::empty(),
{
    StreamHasher { inner: sha1::Sha1::new() }
}

/// `sha1::Digest::update`: the data is fed after what was fed before.
#[verifier::external_body]
fn sha1_update(h: &mut StreamHasher, data: &[u8])
    ensures
        bytes_fed(*final(h)) == bytes_fed(*old(h)) + data@,
{
    h.inner.update(data);
}

/// `sha1::Digest::finalize`: the digest of all that was fed, 20 bytes long.
#[verifier::external_body]
fn sha1_finalize(h: StreamHasher) -> (r: Vec<u8>)
    ensures
        r@ == sha1_digest(bytes_fed(h)),
        r@.len() == 20,
{
    h.inner.finalize().to_vec()
}

/// The lower-case hexadecimal digit of `n`, for `n` below sixteen.
pub open spec fn hex_digit(n: int) -> char {
    if n < 10 {
        (48 + n) as char
    } else {
        (87 + n) as char
    }
}

/// `bytes` in lower-case hexadecimal, two digits a byte.
pub open spec fn hex_text(bytes: Seq<u8>) -> Seq<char> {
    Seq::new(
        2 * bytes.len(),
        |i: int|
            if i % 2 == 0 {
                hex_digit(bytes[i / 2] as int / 16)
            } else {
                hex_digit(bytes[i / 2] as int % 16)
            },
    )
}

fn hex_char(n: u8) -> (c: char)
    requires
        n < 16,
    ensures
        c == hex_digit(n as int),
{
    if n < 10 {
        (48u8 + n) as char
    } else {
        (87u8 + n) as char
    }
}

/// `bytes` in lower-case hexadecimal.
pub fn hex(bytes: &[u8]) -> (r: String)
    ensures
        r@ == hex_text(bytes@),
{
    let mut r: String = String::new();
    let mut i: usize = 0;
    while i < bytes.len()
        invariant
            i <= bytes@.len(),
            r@ =~= hex_text(bytes@.take(i as int)),
        decreases bytes@.len() - i,
    {
        let b: u8 = bytes[i];
        r.push(hex_char(b / 16));
        r.push(hex_char(b % 16));
        proof {
            let t = bytes@.take(i + 1);
            assert(hex_text(t).len() == 2 * i + 2);
            assert forall|k: int| 0 <= k < 2 * i + 2 implies r@[k] == #[trigger] hex_text(t)[k] by {
                if k < 2 * i {
                    assert(hex_text(bytes@.take(i as int))[k] == hex_text(t)[k]);
                } else if k == 2 * i {
                    assert(t[k / 2] == b);
                } else {
                    assert(k == 2 * i + 1);
                    assert(t[k / 2] == b);
                }
            }
        }
        i += 1;
    }
    assert(bytes@.take(bytes@.len() as int) =~= bytes@);
    r
}

/// The SHA-1 digest of a sequence of bytes in hexadecimal: the checksum of a
/// file with that content.
pub open spec fn sha1_hex(bytes: Seq<u8>) -> Seq<char> {
    hex_text(sha1_digest(bytes))
}

impl StreamHasher {
    /// Start a computation.
    pub fn new() -> (h: StreamHasher)
        ensures
            bytes_fed(h) == Seq::<u8>::empty(),
    {
        sha1_new()
    }

    /// Feed the next chunk of a file.
    pub fn update(&mut self, chunk: &[u8])
        ensures
            bytes_fed(*final(self)) == bytes_fed(*old(self)) + chunk@,
    {
        sha1_update(self, chunk)
    }

    /// The digest of everything that was fed: forty lower-case hexadecimal
    /// digits.
    pub fn finish(self) -> (r: String)
        ensures
            r@ == sha1_hex(bytes_fed(self)),
            r@.len() == 40,
    {
        let d: Vec<u8> = sha1_finalize(self);
        hex(&d)
    }
}

/// The digest of bytes that are at hand as a whole.
pub fn hash_bytes(bytes: &[u8]) -> (r: String)
    ensures
        r@ == sha1_hex(bytes@),
        r@.len() == 40,
{
    let mut h: StreamHasher = StreamHasher::new();
    h.update(bytes);
    assert(bytes_fed(h) =~= bytes@);
    h.finish()
}

/// Every character of a digest is a digit or one of the letters `a` to `f`.
pub proof fn law_hex_is_lower_case(bytes: Seq<u8>, i: int)
    requires
        0 <= i < hex_text(bytes).len(),
    ensures
        ('0' <= hex_text(bytes)[i] && hex_text(bytes)[i] <= '9') || ('a' <= hex_text(bytes)[i]
            && hex_text(bytes)[i] <= 'f'),
{
}

/// The value of a hexadecimal digit in lower case.
pub open spec fn hex_value(c: char) -> int {
    if '0' <= c && c <= '9' {
        c as int - '0' as int
    } else {
        c as int - 'a' as int + 10
    }
}

/// Every byte is written as two digits whose value it is, in order; so no two
/// digests are written alike.
pub proof fn law_hex_reads_back(bytes: Seq<u8>, i: int)
    requires
        0 <= i < bytes.len(),
    ensures
        hex_text(bytes).len() == 2 * bytes.len(),
        16 * hex_value(hex_text(bytes)[2 * i]) + hex_value(hex_text(bytes)[2 * i + 1]) == bytes[i],
{
    assert((2 * i) / 2 == i && (2 * i) % 2 == 0);
    assert((2 * i + 1) / 2 == i && (2 * i + 1) % 2 == 1);
}

/// An error of hashing ends with what went wrong.
pub proof fn law_hash_error_ends_with_its_cause(path: String, detail: String)
    ensures
        hasher_message(HasherError::Open { path, detail }).skip(
            hasher_message(HasherError::Open { path, detail }).len() - detail@.len(),
        ) == detail@,
        hasher_message(HasherError::Read { path, detail }).skip(
            hasher_message(HasherError::Read { path, detail }).len() - detail@.len(),
        ) == detail@,
{
}

} // verus!
