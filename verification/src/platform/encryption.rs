//! API key encryption: an AES-256-GCM envelope whose key is protected by the
//! operating system.
//!
//! The API key is encrypted with a random AES key. That AES key and the nonce
//! are protected by the operating system, which ties them to the user account.
//! What is stored is `enc:` and the base64 text of
//!
//! - the length of the protected blob, four bytes, low byte first,
//! - the protected blob,
//! - the ciphertext of the API key.
//!
//! A stored key without the prefix is plain text.

use vstd::prelude::*;
use vstd::utf8;

use aes_gcm::aead::rand_core::RngCore;
use aes_gcm::aead::{Aead, KeyInit, OsRng};
use aes_gcm::{Aes256Gcm, Nonce};
use base64::Engine;

use crate::text;
use crate::text::{concat2, has_prefix, strip_prefix};

verus! {

broadcast use vstd::seq::group_seq_axioms;

/// What stored encrypted keys start with.
pub const ENC_PREFIX: &'static str = "enc:";

/// Length of the nonce in bytes.
pub const NONCE_LEN: usize = 12;

/// Length of the AES key in bytes.
pub const KEY_LEN: usize = 32;

/// The longest plaintext that AES-GCM takes, in bytes.
pub const PLAINTEXT_MAX: u64 = 68_719_476_736;

/// Why a key could not be encrypted or decrypted.
#[derive(Debug)]
pub enum EncryptionError {
    DpapiProtect,
    DpapiUnprotect,
    AesEncrypt,
    AesDecrypt,
    /// The text is not base64; the message says why.
    Base64(String),
    Malformed,
}

/// The text of an [`EncryptionError`].
pub open spec fn encryption_message(e: EncryptionError) -> Seq<char> {
    match e {
        EncryptionError::DpapiProtect => "DPAPI CryptProtectData failed"@,
        EncryptionError::DpapiUnprotect => "DPAPI CryptUnprotectData failed"@,
        EncryptionError::AesEncrypt => "AES-GCM encryption failed"@,
        EncryptionError::AesDecrypt => "AES-GCM decryption failed"@,
        EncryptionError::Base64(m) => "base64 decode failed: "@ + m@,
        EncryptionError::Malformed => "encrypted payload is malformed"@,
    }
}

impl EncryptionError {
    /// The message shown to the user.
    pub fn message(&self) -> (r: String)
        ensures
            r@ == encryption_message(*self),
    {
        match self {
            EncryptionError::DpapiProtect => "DPAPI CryptProtectData failed".to_owned(),
            EncryptionError::DpapiUnprotect => "DPAPI CryptUnprotectData failed".to_owned(),
            EncryptionError::AesEncrypt => "AES-GCM encryption failed".to_owned(),
            EncryptionError::AesDecrypt => "AES-GCM decryption failed".to_owned(),
            EncryptionError::Base64(m) => concat2("base64 decode failed: ", m),
            EncryptionError::Malformed => "encrypted payload is malformed".to_owned(),
        }
    }
}

// ── Outside functions ───────────────────────────────────────────────────────

/// What AES-256-GCM makes of a plaintext, as `aes_gcm` computes it without
/// associated data.
pub uninterp spec fn aes_sealed(key: Seq<u8>, nonce: Seq<u8>, plaintext: Seq<u8>) -> Seq<u8>;

/// The plaintext of a ciphertext, as `aes_gcm` recovers it without associated
/// data; nothing where the ciphertext does not authenticate.
pub uninterp spec fn aes_opened(key: Seq<u8>, nonce: Seq<u8>, ciphertext: Seq<u8>) -> Option<
    Seq<u8>,
>;

/// The base64 text of bytes, in the standard alphabet with padding, as `base64`
/// writes it.
pub uninterp spec fn base64_text(bytes: Seq<u8>) -> Seq<char>;

/// The bytes of a base64 text, as `base64` reads it, or its message where the text
/// is none.
pub uninterp spec fn base64_decoded(text: Seq<char>) -> Result<Seq<u8>, Seq<char>>;

/// The bytes of a base64 text; nothing where it is none.
pub open spec fn base64_bytes(text: Seq<char>) -> Option<Seq<u8>> {
    match base64_decoded(text) {
        Ok(b) => Some(b),
        Err(_) => None,
    }
}

/// Whether the base64 text of `n` bytes, with the mark before it, can be held: no
/// text is longer than `isize::MAX`.
pub open spec fn encodes(n: int) -> bool {
    4 + (n + 2) / 3 * 4 <= isize::MAX
}

/// `aes_gcm::Aes256Gcm::generate_key`: a random key. Only its length is stated.
#[verifier::external_body]
fn random_key() -> (r: Vec<u8>)
    ensures
        r@.len() == KEY_LEN,
{
    Aes256Gcm::generate_key(OsRng).to_vec()
}

/// `aes_gcm::aead::OsRng::fill_bytes`: a random nonce. Only its length is
/// stated.
#[verifier::external_body]
fn random_nonce() -> (r: Vec<u8>)
    ensures
        r@.len() == NONCE_LEN,
{
    let mut nonce = vec![0u8; NONCE_LEN];
    OsRng.fill_bytes(&mut nonce);
    nonce
}

/// `aes_gcm::aead::Aead::encrypt` with `Aes256Gcm`: the ciphertext and tag. It
/// fails for a plaintext that is too long, and what it gives decrypts to the
/// plaintext.
#[verifier::external_body]
fn aes_encrypt(key: &[u8], nonce: &[u8], plaintext: &[u8]) -> (r: Option<Vec<u8>>)
    requires
        key@.len() == KEY_LEN,
        nonce@.len() == NONCE_LEN,
    ensures
        r is Some <==> plaintext@.len() <= PLAINTEXT_MAX,
        r matches Some(c) ==> c@ == aes_sealed(key@, nonce@, plaintext@) && aes_opened(
            key@,
            nonce@,
            c@,
        ) == Some(plaintext@),
{
    let cipher = Aes256Gcm::new(aes_gcm::Key::<Aes256Gcm>::from_slice(key));
    cipher.encrypt(Nonce::from_slice(nonce), plaintext).ok()
}

/// `aes_gcm::aead::Aead::decrypt` with `Aes256Gcm`: the plaintext, `None` where
/// the ciphertext does not authenticate.
#[verifier::external_body]
fn aes_decrypt(key: &[u8], nonce: &[u8], ciphertext: &[u8]) -> (r: Option<Vec<u8>>)
    requires
        key@.len() == KEY_LEN,
        nonce@.len() == NONCE_LEN,
    ensures
        r is Some <==> aes_opened(key@, nonce@, ciphertext@) is Some,
        r matches Some(p) ==> aes_opened(key@, nonce@, ciphertext@) == Some(p@),
{
    let cipher = Aes256Gcm::new(aes_gcm::Key::<Aes256Gcm>::from_slice(key));
    cipher.decrypt(Nonce::from_slice(nonce), ciphertext).ok()
}

/// `base64::Engine::encode` with the standard engine: the base64 text, which
/// decodes to the bytes. A text longer than memory can hold would panic.
#[verifier::external_body]
fn base64_encode(bytes: &[u8]) -> (r: String)
    requires
        encodes(bytes@.len() as int),
    ensures
        r@ == base64_text(bytes@),
        base64_bytes(r@) == Some(bytes@),
{
    base64::engine::general_purpose::STANDARD.encode(bytes)
}

/// `base64::Engine::decode` with the standard engine: the bytes of a base64
/// text, or a message where it is none.
#[verifier::external_body]
fn base64_decode(s: &str) -> (r: Result<Vec<u8>, String>)
    ensures
        match r {
            Ok(b) => base64_decoded(s@) matches Ok(x) && x == b@,
            Err(m) => base64_decoded(s@) matches Err(x) && x == m@,
        },
{
    match base64::engine::general_purpose::STANDARD.decode(s) {
        Ok(b) => Ok(b),
        Err(e) => Err(e.to_string()),
    }
}

/// `String::from_utf8`: the text whose UTF-8 encoding the bytes are, `None`
/// where they are not valid UTF-8.
#[verifier::external_body]
fn utf8_text(bytes: Vec<u8>) -> (r: Option<String>)
    ensures
        match r {
            Some(s) => utf8::encode_utf8(s@) == bytes@,
            None => !utf8::valid_utf8(bytes@),
        },
{
    String::from_utf8(bytes).ok()
}

// ── Payload ─────────────────────────────────────────────────────────────────

/// Whether a stored key is marked as encrypted.
pub open spec fn marked_encrypted(value: Seq<char>) -> bool {
    ENC_PREFIX@.is_prefix_of(value)
}

/// Whether a stored key is encrypted.
pub fn is_encrypted(value: &str) -> (r: bool)
    ensures
        r == marked_encrypted(value@),
{
    has_prefix(value, ENC_PREFIX)
}

/// The four bytes of a number, low byte first.
pub open spec fn le_bytes(n: int) -> Seq<u8> {
    seq![
        (n % 256) as u8,
        (n / 256 % 256) as u8,
        (n / 65536 % 256) as u8,
        (n / 16777216 % 256) as u8,
    ]
}

/// The number that four bytes give, low byte first.
pub open spec fn le_value(b: Seq<u8>) -> int {
    b[0] + 256 * b[1] + 65536 * b[2] + 16777216 * b[3]
}

/// The bytes that are stored for a protected blob and a ciphertext.
pub open spec fn payload_of(blob: Seq<u8>, ciphertext: Seq<u8>) -> Seq<u8> {
    le_bytes(blob.len() as int) + blob + ciphertext
}

/// What is stored for a protected blob and a ciphertext.
pub open spec fn stored_key(blob: Seq<u8>, ciphertext: Seq<u8>) -> Seq<char> {
    ENC_PREFIX@ + base64_text(payload_of(blob, ciphertext))
}

/// Whether a payload is long enough for its length field and its blob.
pub open spec fn payload_complete(p: Seq<u8>) -> bool {
    p.len() >= 4 && p.len() >= 4 + le_value(p)
}

/// A protected blob and the ciphertext that its key opens.
#[derive(Debug)]
pub struct ProtectedKey {
    pub blob: Vec<u8>,
    pub ciphertext: Vec<u8>,
}

fn copy_bytes(v: &Vec<u8>, lo: usize, hi: usize) -> (r: Vec<u8>)
    requires
        lo <= hi <= v@.len(),
    ensures
        r@ == v@.subrange(lo as int, hi as int),
{
    let mut r: Vec<u8> = Vec::new();
    let mut i: usize = lo;
    while i < hi
        invariant
            lo <= i <= hi <= v@.len(),
            r@ =~= v@.subrange(lo as int, i as int),
        decreases hi - i,
    {
        r.push(v[i]);
        i += 1;
    }
    r
}

fn append_bytes(r: &mut Vec<u8>, v: &Vec<u8>)
    ensures
        final(r)@ == old(r)@ + v@,
{
    let ghost r0 = r@;
    let mut i: usize = 0;
    while i < v.len()
        invariant
            i <= v@.len(),
            r@ =~= r0 + v@.take(i as int),
        decreases v@.len() - i,
    {
        r.push(v[i]);
        i += 1;
    }
    assert(v@.take(v@.len() as int) =~= v@);
}

/// Whether what is stored for a blob and a ciphertext of these lengths can be
/// held.
pub fn payload_fits(blob_len: usize, ciphertext_len: usize) -> (r: bool)
    ensures
        r == encodes(4int + blob_len + ciphertext_len),
{
    let n: u128 = 4 + blob_len as u128 + ciphertext_len as u128;
    4 + (n + 2) / 3 * 4 <= isize::MAX as u128
}

/// What is stored for a protected blob and a ciphertext.
pub fn pack_payload(blob: &Vec<u8>, ciphertext: &Vec<u8>) -> (r: String)
    requires
        encodes(4int + blob@.len() + ciphertext@.len()),
    ensures
        r@ == stored_key(blob@, ciphertext@),
        base64_bytes(base64_text(payload_of(blob@, ciphertext@))) == Some(
            payload_of(blob@, ciphertext@),
        ),
{
    let n: usize = blob.len();
    let mut payload: Vec<u8> = Vec::new();
    payload.push((n % 256) as u8);
    payload.push((n / 256 % 256) as u8);
    payload.push((n / 65536 % 256) as u8);
    payload.push((n / 16777216 % 256) as u8);
    assert(payload@ =~= le_bytes(n as int));
    append_bytes(&mut payload, blob);
    append_bytes(&mut payload, ciphertext);
    assert(payload@ =~= payload_of(blob@, ciphertext@));
    let encoded: String = base64_encode(&payload);
    concat2(ENC_PREFIX, &encoded)
}

/// Take a stored key apart. Fails where it is not marked as encrypted, is not
/// base64, or is shorter than its length field says.
pub fn unpack_payload(encrypted: &str) -> (r: Result<ProtectedKey, EncryptionError>)
    ensures
        ({
            let body = text::prefix_removed(encrypted@, ENC_PREFIX@);
            match r {
                Ok(k) => {
                    &&& body is Some
                    &&& base64_bytes(body->0) matches Some(p)
                    &&& payload_complete(p)
                    &&& k.blob@ == p.subrange(4, 4 + le_value(p))
                    &&& k.ciphertext@ == p.skip(4 + le_value(p))
                },
                Err(EncryptionError::Base64(m)) => body is Some && (base64_decoded(
                    body->0,
                ) matches Err(x) && x == m@),
                Err(EncryptionError::Malformed) => body is None || (base64_bytes(
                    body->0,
                ) matches Some(p) && !payload_complete(p)),
                Err(_) => false,
            }
        }),
{
    let b64: String = match strip_prefix(encrypted, ENC_PREFIX) {
        Some(b) => b,
        None => {
            return Err(EncryptionError::Malformed);
        },
    };
    let payload: Vec<u8> = match base64_decode(&b64) {
        Ok(p) => p,
        Err(m) => {
            return Err(EncryptionError::Base64(m));
        },
    };
    if payload.len() < 4 {
        return Err(EncryptionError::Malformed);
    }
    let n: u64 = payload[0] as u64 + 256 * payload[1] as u64 + 65536 * payload[2] as u64 + 16777216
        * payload[3] as u64;
    assert(n == le_value(payload@));
    if (payload.len() as u64) - 4 < n {
        return Err(EncryptionError::Malformed);
    }
    let cut: usize = 4 + n as usize;
    let blob: Vec<u8> = copy_bytes(&payload, 4, cut);
    let ciphertext: Vec<u8> = copy_bytes(&payload, cut, payload.len());
    assert(ciphertext@ =~= payload@.skip(cut as int));
    Ok(ProtectedKey { blob, ciphertext })
}

// ── Encryption ──────────────────────────────────────────────────────────────

/// An encrypted API key together with the key material that opens it. The key
/// material is to be protected before it is stored.
pub struct SealedKey {
    /// The AES key and the nonce.
    pub key_material: Vec<u8>,
    pub ciphertext: Vec<u8>,
}

/// What the key material and a ciphertext decrypt to.
pub open spec fn opened(key_material: Seq<u8>, ciphertext: Seq<u8>) -> Option<Seq<u8>> {
    aes_opened(
        key_material.take(KEY_LEN as int),
        key_material.skip(KEY_LEN as int),
        ciphertext,
    )
}

/// Encrypt an API key with this AES key and nonce.
pub fn seal_with(plaintext: &str, key: &Vec<u8>, nonce: &Vec<u8>) -> (r: Result<
    SealedKey,
    EncryptionError,
>)
    requires
        key@.len() == KEY_LEN,
        nonce@.len() == NONCE_LEN,
    ensures
        match r {
            Ok(s) => {
                &&& s.key_material@ == key@ + nonce@
                &&& s.ciphertext@ == aes_sealed(key@, nonce@, utf8::encode_utf8(plaintext@))
                &&& opened(s.key_material@, s.ciphertext@) == Some(utf8::encode_utf8(plaintext@))
                &&& utf8::encode_utf8(plaintext@).len() <= PLAINTEXT_MAX
            },
            Err(e) => e is AesEncrypt && utf8::encode_utf8(plaintext@).len() > PLAINTEXT_MAX,
        },
{
    match aes_encrypt(key, nonce, plaintext.as_bytes()) {
        None => Err(EncryptionError::AesEncrypt),
        Some(ciphertext) => {
            let mut key_material: Vec<u8> = Vec::new();
            append_bytes(&mut key_material, key);
            append_bytes(&mut key_material, nonce);
            assert(key_material@ =~= key@ + nonce@);
            assert((key@ + nonce@).take(KEY_LEN as int) =~= key@);
            assert((key@ + nonce@).skip(KEY_LEN as int) =~= nonce@);
            Ok(SealedKey { key_material, ciphertext })
        },
    }
}

/// Encrypt an API key with a fresh AES key and nonce.
pub fn seal_api_key(plaintext: &str) -> (r: Result<SealedKey, EncryptionError>)
    ensures
        match r {
            Ok(s) => {
                &&& s.key_material@.len() == KEY_LEN + NONCE_LEN
                &&& opened(s.key_material@, s.ciphertext@) == Some(utf8::encode_utf8(plaintext@))
            },
            Err(e) => e is AesEncrypt && utf8::encode_utf8(plaintext@).len() > PLAINTEXT_MAX,
        },
{
    let key: Vec<u8> = random_key();
    let nonce: Vec<u8> = random_nonce();
    seal_with(plaintext, &key, &nonce)
}

/// The stored form of an encrypted API key. `protected` is what the operating
/// system made of the key material, or nothing where it failed.
pub fn encrypt_api_key(sealed: &SealedKey, protected: Option<Vec<u8>>) -> (r: Result<
    String,
    EncryptionError,
>)
    requires
        protected matches Some(b) ==> encodes(4int + b@.len() + sealed.ciphertext@.len()),
    ensures
        match protected {
            None => r matches Err(EncryptionError::DpapiProtect),
            Some(b) => r matches Ok(s) && s@ == stored_key(b@, sealed.ciphertext@),
        },
{
    match protected {
        None => Err(EncryptionError::DpapiProtect),
        Some(blob) => Ok(pack_payload(&blob, &sealed.ciphertext)),
    }
}

/// The text that the key material and a ciphertext decrypt to.
pub open spec fn decrypted(key_material: Seq<u8>, ciphertext: Seq<u8>) -> Option<Seq<char>> {
    match opened(key_material, ciphertext) {
        Some(p) => if utf8::valid_utf8(p) {
            Some(utf8::decode_utf8(p))
        } else {
            None
        },
        None => None,
    }
}

/// Decrypt an API key. `key_material` is what the operating system made of the
/// protected blob, or nothing where it failed.
pub fn decrypt_api_key(key: &ProtectedKey, key_material: Option<Vec<u8>>) -> (r: Result<
    String,
    EncryptionError,
>)
    ensures
        match key_material {
            None => r matches Err(EncryptionError::DpapiUnprotect),
            Some(m) => if m@.len() != KEY_LEN + NONCE_LEN {
                r matches Err(EncryptionError::Malformed)
            } else {
                match decrypted(m@, key.ciphertext@) {
                    Some(p) => r matches Ok(s) && s@ == p,
                    None => r matches Err(EncryptionError::AesDecrypt),
                }
            },
        },
{
    broadcast use {vstd::utf8::encode_utf8_valid_utf8, vstd::utf8::encode_utf8_decode_utf8};

    let m: Vec<u8> = match key_material {
        None => {
            return Err(EncryptionError::DpapiUnprotect);
        },
        Some(m) => m,
    };
    if m.len() != KEY_LEN + NONCE_LEN {
        return Err(EncryptionError::Malformed);
    }
    let aes_key: Vec<u8> = copy_bytes(&m, 0, KEY_LEN);
    let nonce: Vec<u8> = copy_bytes(&m, KEY_LEN, m.len());
    assert(aes_key@ =~= m@.take(KEY_LEN as int));
    assert(nonce@ =~= m@.skip(KEY_LEN as int));
    match aes_decrypt(&aes_key, &nonce, &key.ciphertext) {
        None => Err(EncryptionError::AesDecrypt),
        Some(p) => match utf8_text(p) {
            Some(s) => Ok(s),
            None => Err(EncryptionError::AesDecrypt),
        },
    }
}

// ── Laws ────────────────────────────────────────────────────────────────────

proof fn lemma_le_reads_back(n: int)
    requires
        0 <= n <= u32::MAX,
    ensures
        le_value(le_bytes(n)) == n,
        le_bytes(n).len() == 4,
{
    assert(n == n % 256 + 256 * (n / 256));
    assert(n / 256 == n / 256 % 256 + 256 * (n / 65536));
    assert(n / 65536 == n / 65536 % 256 + 256 * (n / 16777216));
}

/// A stored key is marked as encrypted, and taking it apart gives back the
/// blob and the ciphertext that it was made of.
pub proof fn law_stored_key_unpacks(blob: Seq<u8>, ciphertext: Seq<u8>)
    requires
        blob.len() <= u32::MAX,
    ensures
        marked_encrypted(stored_key(blob, ciphertext)),
        text::prefix_removed(stored_key(blob, ciphertext), ENC_PREFIX@) == Some(
            base64_text(payload_of(blob, ciphertext)),
        ),
        payload_complete(payload_of(blob, ciphertext)),
        payload_of(blob, ciphertext).subrange(4, 4 + le_value(payload_of(blob, ciphertext))) == blob,
        payload_of(blob, ciphertext).skip(4 + le_value(payload_of(blob, ciphertext)))
            == ciphertext,
{
    let s = stored_key(blob, ciphertext);
    let p = payload_of(blob, ciphertext);
    let n = blob.len() as int;
    lemma_le_reads_back(n);
    assert(s.subrange(0, ENC_PREFIX@.len() as int) =~= ENC_PREFIX@);
    assert(s.skip(ENC_PREFIX@.len() as int) =~= base64_text(p));
    assert(p[0] == le_bytes(n)[0] && p[1] == le_bytes(n)[1] && p[2] == le_bytes(n)[2] && p[3]
        == le_bytes(n)[3]);
    assert(le_value(p) == n);
    assert(p.subrange(4, 4 + n) =~= blob);
    assert(p.skip(4 + n) =~= ciphertext);
}

/// What was encrypted decrypts to itself: where the operating system gives back
/// the key material that it protected, a key that was sealed, stored and taken
/// apart reads as before.
pub proof fn law_encrypted_key_decrypts(
    plaintext: Seq<char>,
    key_material: Seq<u8>,
    blob: Seq<u8>,
    ciphertext: Seq<u8>,
)
    requires
        opened(key_material, ciphertext) == Some(utf8::encode_utf8(plaintext)),
        blob.len() <= u32::MAX,
    ensures
        decrypted(
            key_material,
            payload_of(blob, ciphertext).skip(4 + le_value(payload_of(blob, ciphertext))),
        ) == Some(plaintext),
{
    broadcast use {vstd::utf8::encode_utf8_valid_utf8, vstd::utf8::encode_utf8_decode_utf8};

    law_stored_key_unpacks(blob, ciphertext);
}

/// A value is encrypted where it starts with the mark, and only there.
pub proof fn law_encrypted_values_are_marked(value: Seq<char>, body: Seq<char>)
    ensures
        marked_encrypted("enc:"@ + body),
        marked_encrypted(value) ==> value.len() >= 4 && value.take(4) == "enc:"@,
{
    reveal_strlit("enc:");
    let v = "enc:"@ + body;
    assert(v.take(4) =~= "enc:"@);
}

/// The length of the protected part is written in four bytes, the lowest first;
/// that part follows, and then the ciphertext.
pub proof fn law_payload_is_laid_out(blob: Seq<u8>, ciphertext: Seq<u8>)
    requires
        blob.len() <= u32::MAX,
    ensures
        ({
            let p = payload_of(blob, ciphertext);
            &&& p.len() == 4 + blob.len() + ciphertext.len()
            &&& p[0] + 256 * p[1] + 65536 * p[2] + 16777216 * p[3] == blob.len()
            &&& p.subrange(4, 4 + blob.len() as int) == blob
            &&& p.skip(4 + blob.len() as int) == ciphertext
            &&& stored_key(blob, ciphertext) == "enc:"@ + base64_text(p)
        }),
{
    lemma_le_reads_back(blob.len() as int);
    let p = payload_of(blob, ciphertext);
    assert(p.subrange(4, 4 + blob.len() as int) =~= blob);
    assert(p.skip(4 + blob.len() as int) =~= ciphertext);
}

/// A payload is complete where it holds the length and as many bytes as that says.
pub proof fn law_payload_must_be_complete(p: Seq<u8>)
    ensures
        p.len() < 4 ==> !payload_complete(p),
        p.len() >= 4 ==> (payload_complete(p) <==> p.len() - 4 >= p[0] + 256 * p[1] + 65536 * p[2]
            + 16777216 * p[3]),
{
}

/// A key is opened with the first thirty-two bytes as the cipher's key and the
/// rest as its nonce, and reads as text where it is text.
pub proof fn law_key_material_opens_the_key(
    key: Seq<u8>,
    nonce: Seq<u8>,
    ciphertext: Seq<u8>,
    plaintext: Seq<u8>,
)
    requires
        key.len() == 32,
    ensures
        opened(key + nonce, ciphertext) == aes_opened(key, nonce, ciphertext),
        aes_opened(key, nonce, ciphertext) is None ==> decrypted(key + nonce, ciphertext) is None,
        aes_opened(key, nonce, ciphertext) == Some(plaintext) && utf8::valid_utf8(plaintext)
            ==> decrypted(key + nonce, ciphertext) == Some(utf8::decode_utf8(plaintext)),
        aes_opened(key, nonce, ciphertext) == Some(plaintext) && !utf8::valid_utf8(plaintext)
            ==> decrypted(key + nonce, ciphertext) is None,
{
    assert((key + nonce).take(32) =~= key);
    assert((key + nonce).skip(32) =~= nonce);
}

} // verus!
