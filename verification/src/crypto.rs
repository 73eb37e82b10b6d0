use crate::error::NamedPipeError;
use chacha20poly1305::aead::{Aead, AeadCore, KeyInit, OsRng};
use chacha20poly1305::{ChaCha20Poly1305, Nonce};
use vstd::prelude::*;
use vstd::slice::{slice_subrange, slice_to_vec};

verus! {

/// What ChaCha20-Poly1305 sealing returns for a key, a nonce and a
/// plaintext: the ciphertext with its 16-byte authentication tag appended.
/// The result is a function of those three arguments alone; its definition
/// lives in the outside crate and is deliberately not restated here.
pub uninterp spec fn seal_of(key: Seq<u8>, nonce: Seq<u8>, plaintext: Seq<u8>) -> Seq<u8>;

/// The shape of an encrypted payload carrying `msg` under `key`: a 12-byte
/// nonce followed by the sealing of `msg` under that nonce.
pub open spec fn is_sealed_payload(key: Seq<u8>, payload: Seq<u8>, msg: Seq<u8>) -> bool {
    payload.len() >= 12 && payload.skip(12) == seal_of(key, payload.take(12), msg)
}

/// Relies on chacha20poly1305's `Aead::encrypt` (the cipher built from the
/// key by `KeyInit::new`): the sealing of a plaintext is a function of key,
/// nonce and plaintext alone, and is the ciphertext with a 16-byte Poly1305
/// tag appended. Sealing fails only when the plaintext exceeds the
/// cipher's enormous maximum (near 2^38 bytes), so it succeeds on every
/// plaintext short enough for a 4-byte length prefix.
#[verifier::external_body]
fn aead_seal(key: &[u8], nonce: &[u8], plaintext: &[u8]) -> (r: Option<Vec<u8>>)
    requires
        key@.len() == 32,
        nonce@.len() == 12,
    ensures
        r matches Some(ct) ==> ct@ == seal_of(key@, nonce@, plaintext@) && ct@.len()
            == plaintext@.len() + 16,
        plaintext@.len() <= u32::MAX ==> r is Some,
{
    let cipher = ChaCha20Poly1305::new(chacha20poly1305::Key::from_slice(key));
    match cipher.encrypt(Nonce::from_slice(nonce), plaintext) {
        Ok(ct) => Some(ct),
        Err(_) => None,
    }
}

/// Relies on chacha20poly1305's `Aead::decrypt`: opening returns the unique
/// plaintext whose sealing under this key and nonce is the ciphertext, and
/// fails when the ciphertext is not such a sealing (failed authentication).
#[verifier::external_body]
fn aead_open(key: &[u8], nonce: &[u8], ciphertext: &[u8]) -> (r: Option<Vec<u8>>)
    requires
        key@.len() == 32,
        nonce@.len() == 12,
    ensures
        r matches Some(p) ==> ciphertext@ == seal_of(key@, nonce@, p@),
        r matches Some(q) ==> forall|p: Seq<u8>| ciphertext@ == seal_of(key@, nonce@, p) ==> q@ == p,
        r is None ==> forall|p: Seq<u8>| ciphertext@ != seal_of(key@, nonce@, p),
{
    let cipher = ChaCha20Poly1305::new(chacha20poly1305::Key::from_slice(key));
    match cipher.decrypt(Nonce::from_slice(nonce), ciphertext) {
        Ok(pt) => Some(pt),
        Err(_) => None,
    }
}

/// Relies on chacha20poly1305's `AeadCore::generate_nonce` over the OS
/// random source: the result is random, so nothing is stated of it beyond
/// its 96-bit length. If the OS entropy source itself fails, the call
/// panics — an environmental fault of the same kind as out of memory.
#[verifier::external_body]
fn generate_nonce() -> (r: Vec<u8>)
    ensures
        r@.len() == 12,
{
    ChaCha20Poly1305::generate_nonce(&mut OsRng).to_vec()
}

/// The compiled-in fallback key. It is shared by every build of this
/// library that does not supply its own key: read-only, process-wide
/// configuration, not a secret unique to any deployment.
pub open spec fn spec_default_key() -> Seq<u8> {
    seq![
        0x4d, 0x8a, 0x2b, 0x71, 0xc3, 0x5e, 0x90, 0x17,
        0xa6, 0x3f, 0xd2, 0x84, 0x0b, 0xe9, 0x56, 0xc8,
        0x72, 0x1d, 0xbe, 0x43, 0xf0, 0x69, 0x8c, 0x25,
        0xda, 0x07, 0x91, 0x6e, 0x34, 0xfb, 0xa0, 0x5c,
    ]
}

/// The compiled-in fallback key as bytes, used whenever a caller does not
/// supply a key of their own.
pub fn default_key() -> (k: Vec<u8>)
    ensures
        k@ == spec_default_key(),
        k@.len() == 32,
{
    let k: Vec<u8> = vec![
        0x4d, 0x8a, 0x2b, 0x71, 0xc3, 0x5e, 0x90, 0x17,
        0xa6, 0x3f, 0xd2, 0x84, 0x0b, 0xe9, 0x56, 0xc8,
        0x72, 0x1d, 0xbe, 0x43, 0xf0, 0x69, 0x8c, 0x25,
        0xda, 0x07, 0x91, 0x6e, 0x34, 0xfb, 0xa0, 0x5c,
    ];
    proof {
        assert(k@ =~= spec_default_key());
    }
    k
}

/// Round trip: the payload `encrypt_message` builds — a 12-byte nonce
/// followed by the sealing of `msg` under it — is a sealed payload
/// carrying `msg` and nothing else, so `decrypt_message` on it returns
/// exactly `msg` (its contract pins the result on every sealed payload).
pub proof fn lemma_sealed_payload_round_trip(key: Seq<u8>, nonce: Seq<u8>, msg: Seq<u8>)
    requires
        nonce.len() == 12,
    ensures
        is_sealed_payload(key, nonce + seal_of(key, nonce, msg), msg),
{
    let payload = nonce + seal_of(key, nonce, msg);
    assert(payload.take(12) =~= nonce);
    assert(payload.skip(12) =~= seal_of(key, nonce, msg));
}

/// A 256-bit key for authenticated encryption, held as plain bytes.
pub struct Cipher {
    key: Vec<u8>,
}

impl Cipher {
    /// The key bytes, for contracts.
    pub closed spec fn key_view(&self) -> Seq<u8> {
        self.key@
    }

    pub open spec fn wf(&self) -> bool {
        self.key_view().len() == 32
    }

    /// A cipher over a caller-supplied 256-bit key.
    pub fn new(key: &[u8; 32]) -> (c: Cipher)
        ensures
            c.wf(),
            c.key_view() == key@,
    {
        Cipher { key: slice_to_vec(key.as_slice()) }
    }

    /// A cipher over the caller's key when one is given, else over the
    /// compiled-in fallback key.
    pub fn from_key_option(key: Option<&[u8; 32]>) -> (c: Cipher)
        ensures
            c.wf(),
            c.key_view() == match key {
                Some(k) => k@,
                None => spec_default_key(),
            },
    {
        match key {
            Some(k) => Cipher::new(k),
            None => Cipher { key: default_key() },
        }
    }

    /// A second cipher over the same key.
    pub fn duplicate(&self) -> (c: Cipher)
        ensures
            c.key_view() == self.key_view(),
    {
        let k = self.key.clone();
        proof {
            assert(k@ =~= self.key@);
        }
        Cipher { key: k }
    }
}

/// Encrypt `data`: draw a fresh random 96-bit nonce and seal `data` with no
/// associated data; the result is the nonce followed by the ciphertext.
///
/// The nonce is random, so the exact result is pinned only up to it: every
/// success is a sealed payload carrying `data`, 28 bytes longer than it,
/// and success is owed on every plaintext short enough for a length
/// prefix.
pub fn encrypt_message(cipher: &Cipher, data: &[u8]) -> (r: Result<Vec<u8>, NamedPipeError>)
    requires
        cipher.wf(),
    ensures
        data@.len() <= u32::MAX ==> r is Ok,
        r matches Ok(w) ==> is_sealed_payload(cipher.key_view(), w@, data@),
        r matches Ok(w) ==> w@.len() == data@.len() + 28,
        r matches Err(e) ==> e == NamedPipeError::Data,
{
    let nonce = generate_nonce();
    match aead_seal(cipher.key.as_slice(), nonce.as_slice(), data) {
        Some(ct) => {
            let ghost nonce_bytes = nonce@;
            let mut out = nonce;
            let mut ct_tail = ct;
            out.append(&mut ct_tail);
            proof {
                assert(out@.take(12) =~= nonce_bytes);
                assert(out@.skip(12) =~= seal_of(cipher.key_view(), nonce_bytes, data@));
            }
            Ok(out)
        },
        None => Err(NamedPipeError::Data),
    }
}

/// Decrypt a payload produced by `encrypt_message` under the same key.
///
/// Fails with a data error when the payload is shorter than a nonce, and
/// when its ciphertext is not the sealing of any message under its nonce
/// (tampered bytes, a wrong key, a truncated tag). On success the result is
/// exactly the message the payload carries; no partial plaintext escapes.
pub fn decrypt_message(cipher: &Cipher, data: &[u8]) -> (r: Result<Vec<u8>, NamedPipeError>)
    requires
        cipher.wf(),
    ensures
        r matches Ok(p) ==> is_sealed_payload(cipher.key_view(), data@, p@),
        forall|msg: Seq<u8>|
            is_sealed_payload(cipher.key_view(), data@, msg) ==> (r matches Ok(q) && q@ == msg),
        r matches Err(e) ==> e == NamedPipeError::Data,
        data@.len() < 12 ==> (r matches Err(e) && e == NamedPipeError::Data),
{
    if data.len() < 12 {
        return Err(NamedPipeError::Data);
    }
    let nonce = slice_subrange(data, 0, 12);
    let ct = slice_subrange(data, 12, data.len());
    proof {
        assert(nonce@ =~= data@.take(12));
        assert(ct@ =~= data@.skip(12));
    }
    match aead_open(cipher.key.as_slice(), nonce, ct) {
        Some(p) => Ok(p),
        None => Err(NamedPipeError::Data),
    }
}

} // verus!
