//! Encryption at rest: file content is stored as a fresh 96-bit nonce
//! followed by its AES-256-GCM ciphertext, under a 256-bit key given in
//! base64. Reading back what was written gives the plaintext again.
use vstd::prelude::*;
use crate::error::ApiError;
use crate::storage::LocalFileStore;

verus! {

broadcast use vstd::seq_lib::group_seq_properties, vstd::seq::group_seq_axioms;

/// The length of a nonce, in bytes.
pub const NONCE_SIZE: usize = 12;

/// The length of a key, in bytes.
pub const KEY_SIZE: usize = 32;

/// What `Aes256Gcm::encrypt` makes of `plaintext` under `key` and `nonce`
/// (ciphertext followed by its tag); `None` where it refuses.
pub uninterp spec fn aes_gcm_sealed(key: Seq<u8>, nonce: Seq<u8>, plaintext: Seq<u8>) -> Option<Seq<u8>>;

/// What `Aes256Gcm::decrypt` makes of `ciphertext` under `key` and `nonce`;
/// `None` where authentication fails.
pub uninterp spec fn aes_gcm_opened(key: Seq<u8>, nonce: Seq<u8>, ciphertext: Seq<u8>) -> Option<Seq<u8>>;

/// What the standard base64 engine decodes `s` to; `None` for text that is
/// not base64.
pub uninterp spec fn base64_decoded(s: Seq<char>) -> Option<Seq<u8>>;

/// The length of the authentication tag that AES-GCM appends.
pub const GCM_TAG_SIZE: usize = 16;

/// The longest plaintext, in bytes, that AES-GCM encrypts (2^36).
pub const GCM_MAX_PLAINTEXT: u64 = 0x10_0000_0000;

/// The bytes of an optional byte vector.
pub open spec fn opt_bytes(o: Option<Vec<u8>>) -> Option<Seq<u8>> {
    match o {
        Some(v) => Some(v@),
        None => None,
    }
}

/// Encrypts `plaintext` with `aes_gcm::Aes256Gcm` under `key` and `nonce`.
/// The result is named, not restated: AES-GCM is not written out here. As
/// the crate documents, a ciphertext is the plaintext's length plus the
/// 16-byte authentication tag; as its source shows, it refuses only a
/// plaintext longer than 2^36 bytes.
#[verifier::external_body]
fn aes_gcm_encrypt(key: &[u8; 32], nonce: &[u8; 12], plaintext: &[u8]) -> (r: Option<Vec<u8>>)
    ensures
        opt_bytes(r) == aes_gcm_sealed(key@, nonce@, plaintext@),
        r matches Some(c) ==> c@.len() == plaintext@.len() + GCM_TAG_SIZE,
        plaintext@.len() <= GCM_MAX_PLAINTEXT ==> r is Some,
{
    let cipher = <aes_gcm::Aes256Gcm as aes_gcm::aead::KeyInit>::new(&aes_gcm::Key::<aes_gcm::Aes256Gcm>::from(*key));
    aes_gcm::aead::Aead::encrypt(&cipher, aes_gcm::Nonce::from_slice(nonce), plaintext).ok()
}

/// Decrypts `ciphertext` with `aes_gcm::Aes256Gcm` under `key` and `nonce`.
/// Besides naming the result, the contract states AES-GCM's correctness as
/// its documentation gives it: a ciphertext that encryption made from some
/// plaintext under the same key and nonce decrypts to that plaintext.
#[verifier::external_body]
fn aes_gcm_decrypt(key: &[u8; 32], nonce: &[u8], ciphertext: &[u8]) -> (r: Option<Vec<u8>>)
    requires
        nonce@.len() == NONCE_SIZE,
    ensures
        opt_bytes(r) == aes_gcm_opened(key@, nonce@, ciphertext@),
        forall|p: Seq<u8>| #[trigger] aes_gcm_sealed(key@, nonce@, p) == Some(ciphertext@) ==> opt_bytes(r) == Some(p),
{
    let cipher = <aes_gcm::Aes256Gcm as aes_gcm::aead::KeyInit>::new(&aes_gcm::Key::<aes_gcm::Aes256Gcm>::from(*key));
    aes_gcm::aead::Aead::decrypt(&cipher, aes_gcm::Nonce::from_slice(nonce), ciphertext).ok()
}

/// A fresh nonce from the operating system's random source
/// (`aead::OsRng`). It is random, so no clause states its value.
#[verifier::external_body]
fn random_nonce() -> (n: [u8; 12]) {
    let mut n = [0u8; 12];
    aes_gcm::aead::rand_core::RngCore::fill_bytes(&mut aes_gcm::aead::OsRng, &mut n);
    n
}

/// Decodes `s` with base64's standard engine.
#[verifier::external_body]
fn base64_decode(s: &str) -> (r: Option<Vec<u8>>)
    ensures
        opt_bytes(r) == base64_decoded(s@),
{
    base64::Engine::decode(&base64::engine::general_purpose::STANDARD, s).ok()
}

/// The key that the base64 text `encoded` gives: exactly 32 bytes, or none.
pub open spec fn key_outcome(encoded: Seq<char>) -> Option<Seq<u8>> {
    match base64_decoded(encoded) {
        Some(b) => if b.len() == KEY_SIZE { Some(b) } else { None },
        None => None,
    }
}

/// The key that the decoded bytes `bytes` make: `None` unless there are
/// exactly 32 of them.
pub fn key_from_bytes(bytes: &Vec<u8>) -> (r: Option<[u8; 32]>)
    ensures
        match r {
            Some(k) => bytes@.len() == KEY_SIZE && k@ == bytes@,
            None => bytes@.len() != KEY_SIZE,
        },
{
    if bytes.len() != KEY_SIZE {
        return None;
    }
    let mut key = [0u8; 32];
    for i in 0..32
        invariant
            bytes@.len() == 32,
            key@.len() == 32,
            forall|k: int| 0 <= k < i ==> key@[k] == bytes@[k],
    {
        key[i] = bytes[i];
    }
    assert(key@ =~= bytes@);
    Some(key)
}

/// The key given as base64 text: exactly 32 bytes once decoded, or none.
pub fn key_from_base64(encoded: &str) -> (r: Option<[u8; 32]>)
    ensures
        match r {
            Some(k) => key_outcome(encoded@) == Some(k@),
            None => key_outcome(encoded@) is None,
        },
{
    match base64_decode(encoded) {
        Some(bytes) => key_from_bytes(&bytes),
        None => None,
    }
}

/// What is stored for `ciphertext` sealed under `nonce`: the nonce, then the
/// ciphertext.
pub fn frame_sealed(nonce: &[u8; 12], ciphertext: &Vec<u8>) -> (out: Vec<u8>)
    ensures
        out@ == nonce@ + ciphertext@,
{
    let mut out: Vec<u8> = Vec::new();
    for i in 0..NONCE_SIZE
        invariant
            nonce@.len() == 12,
            out@ == nonce@.take(i as int),
    {
        out.push(nonce[i]);
        assert(nonce@.take(i + 1) =~= nonce@.take(i as int).push(nonce@[i as int]));
    }
    assert(nonce@.take(12) =~= nonce@);
    let ghost head = out@;
    for i in 0..ciphertext.len()
        invariant
            head == nonce@,
            out@ == head + ciphertext@.take(i as int),
    {
        out.push(ciphertext[i]);
        assert(ciphertext@.take(i + 1) =~= ciphertext@.take(i as int).push(ciphertext@[i as int]));
        assert(head + ciphertext@.take(i + 1) =~= (head + ciphertext@.take(i as int)).push(ciphertext@[i as int]));
    }
    assert(ciphertext@.take(ciphertext@.len() as int) =~= ciphertext@);
    out
}

/// What decrypting the stored bytes `data` under `key` answers: too short
/// for a nonce, the plaintext, or a failure to decrypt.
pub open spec fn decrypt_outcome(key: Seq<u8>, data: Seq<u8>) -> Result<Seq<u8>, ApiError> {
    if data.len() < NONCE_SIZE {
        Err(ApiError::EncryptedTooShort)
    } else {
        match aes_gcm_opened(key, data.take(NONCE_SIZE as int), data.skip(NONCE_SIZE as int)) {
            Some(p) => Ok(p),
            None => Err(ApiError::DecryptFailed),
        }
    }
}

/// A file store that encrypts what it holds.
pub struct EncryptedFileStore {
    inner: LocalFileStore,
    key: [u8; 32],
}

impl EncryptedFileStore {
    /// A store that encrypts under `key_bytes` what `inner` holds.
    pub fn new(inner: LocalFileStore, key_bytes: [u8; 32]) -> (s: Self)
        ensures
            s.store() == inner,
            s.key() == key_bytes@,
    {
        EncryptedFileStore { inner, key: key_bytes }
    }

    /// The key, as bytes.
    pub closed spec fn key(&self) -> Seq<u8> {
        self.key@
    }

    /// The store underneath.
    pub closed spec fn store(&self) -> LocalFileStore {
        self.inner
    }

    /// The bytes to store for `plaintext`: a fresh nonce, then the
    /// ciphertext under that nonce. Only a plaintext longer than 2^36 bytes
    /// is refused.
    pub fn encrypt_bytes(&self, plaintext: &[u8]) -> (r: Result<Vec<u8>, ApiError>)
        ensures
            plaintext@.len() <= GCM_MAX_PLAINTEXT ==> r is Ok,
            exists|nonce: Seq<u8>| {
                &&& nonce.len() == NONCE_SIZE
                &&& match #[trigger] aes_gcm_sealed(self.key(), nonce, plaintext@) {
                    Some(c) => r is Ok && r->Ok_0@ == nonce + c && c.len() == plaintext@.len() + GCM_TAG_SIZE,
                    None => r == Err::<Vec<u8>, ApiError>(ApiError::EncryptFailed),
                }
            },
    {
        let nonce = random_nonce();
        let r = match aes_gcm_encrypt(&self.key, &nonce, plaintext) {
            Some(c) => Ok(frame_sealed(&nonce, &c)),
            None => Err(ApiError::EncryptFailed),
        };
        assert(nonce@.len() == NONCE_SIZE);
        assert(match aes_gcm_sealed(self.key(), nonce@, plaintext@) {
            Some(c) => r is Ok && r->Ok_0@ == nonce@ + c && c.len() == plaintext@.len() + GCM_TAG_SIZE,
            None => r == Err::<Vec<u8>, ApiError>(ApiError::EncryptFailed),
        });
        r
    }

    /// The plaintext of the stored bytes `data`. Bytes that encryption
    /// stored for a plaintext give that plaintext back.
    pub fn decrypt_bytes(&self, data: &[u8]) -> (r: Result<Vec<u8>, ApiError>)
        ensures
            match decrypt_outcome(self.key(), data@) {
                Ok(p) => r is Ok && r->Ok_0@ == p,
                Err(e) => r == Err::<Vec<u8>, ApiError>(e),
            },
            data@.len() >= NONCE_SIZE ==> forall|p: Seq<u8>|
                #[trigger] aes_gcm_sealed(self.key(), data@.take(NONCE_SIZE as int), p) == Some(data@.skip(NONCE_SIZE as int))
                ==> r is Ok && r->Ok_0@ == p,
    {
        if data.len() < NONCE_SIZE {
            return Err(ApiError::EncryptedTooShort);
        }
        let (nonce, ciphertext) = data.split_at(NONCE_SIZE);
        assert(nonce@ == data@.take(NONCE_SIZE as int));
        assert(ciphertext@ == data@.skip(NONCE_SIZE as int));
        match aes_gcm_decrypt(&self.key, nonce, ciphertext) {
            Some(p) => Ok(p),
            None => Err(ApiError::DecryptFailed),
        }
    }

    /// The store underneath.
    pub fn inner(&self) -> (r: &LocalFileStore)
        ensures
            *r == self.store(),
    {
        &self.inner
    }
}

} // verus!
