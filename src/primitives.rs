//! Calls into the RustCrypto AEAD implementations.
//!
//! Each cipher's ciphertext is named by an uninterpreted function of the key,
//! nonce, associated data and plaintext: it is fixed by these alone. Opening
//! is stated through the same name: it recovers the one plaintext that seals
//! to the given ciphertext, and fails where there is none.
use aes_gcm::aead::Aead as _;
use aes_gcm::aead::KeyInit as _;
use vstd::prelude::*;

verus! {

/// The longest plaintext that AES-GCM seals (`aes_gcm::P_MAX`), in bytes.
pub const AES_GCM_MAX_PLAIN: u64 = 68719476736;

/// The longest associated data that AES-GCM accepts (`aes_gcm::A_MAX`), in bytes.
pub const AES_GCM_MAX_AAD: u64 = 68719476736;

/// The longest plaintext that ChaCha20-Poly1305 seals here: the keystream
/// after the block that keys Poly1305 holds this many bytes.
pub const CHACHA_MAX_PLAIN: u64 = 274877906816;

/// The length of the authentication tag that all three ciphers append.
pub const TAG_LEN: u64 = 16;

/// The output of AES-128-GCM on (key, nonce, aad, plaintext).
pub uninterp spec fn aes128_gcm_sealed(
    key: Seq<u8>,
    nonce: Seq<u8>,
    aad: Seq<u8>,
    plain: Seq<u8>,
) -> Seq<u8>;

/// The output of AES-256-GCM on (key, nonce, aad, plaintext).
pub uninterp spec fn aes256_gcm_sealed(
    key: Seq<u8>,
    nonce: Seq<u8>,
    aad: Seq<u8>,
    plain: Seq<u8>,
) -> Seq<u8>;

/// The output of ChaCha20-Poly1305 on (key, nonce, aad, plaintext).
pub uninterp spec fn chacha20_poly1305_sealed(
    key: Seq<u8>,
    nonce: Seq<u8>,
    aad: Seq<u8>,
    plain: Seq<u8>,
) -> Seq<u8>;

/// Relies on `aes_gcm::Aes128Gcm` through `aead::Aead::encrypt`: it fails
/// exactly when the plaintext or the associated data exceeds its limit, and
/// appends a 16-byte tag to a ciphertext as long as the plaintext.
#[verifier::external_body]
pub(crate) fn aes128_gcm_encrypt(key: &[u8], nonce: &[u8], aad: &[u8], plain: &[u8]) -> (out: Option<Vec<u8>>)
    requires
        key@.len() == 16,
        nonce@.len() == 12,
    ensures
        out is Some ==> plain@.len() <= AES_GCM_MAX_PLAIN && aad@.len() <= AES_GCM_MAX_AAD,
        plain@.len() <= AES_GCM_MAX_PLAIN && aad@.len() <= AES_GCM_MAX_AAD ==> out is Some,
        out is Some ==> out->0@ == aes128_gcm_sealed(key@, nonce@, aad@, plain@),
        out is Some ==> out->0@.len() == plain@.len() + TAG_LEN,
{
    let cipher = aes_gcm::Aes128Gcm::new(aes_gcm::Key::<aes_gcm::Aes128Gcm>::from_slice(key));
    let payload = aes_gcm::aead::Payload { msg: plain, aad };
    cipher.encrypt(aes_gcm::Nonce::from_slice(nonce), payload).ok()
}

/// Relies on `aes_gcm::Aes128Gcm` through `aead::Aead::decrypt`: it checks
/// the tag and, where it matches, returns the plaintext that seals to
/// `cipher`; it fails on every other input.
#[verifier::external_body]
pub(crate) fn aes128_gcm_decrypt(key: &[u8], nonce: &[u8], aad: &[u8], cipher: &[u8]) -> (out: Option<Vec<u8>>)
    requires
        key@.len() == 16,
        nonce@.len() == 12,
        cipher@.len() <= AES_GCM_MAX_PLAIN + TAG_LEN,
    ensures
        out is Some ==> out->0@.len() <= AES_GCM_MAX_PLAIN,
        out is Some ==> aad@.len() <= AES_GCM_MAX_AAD,
        out is Some ==> cipher@ == aes128_gcm_sealed(key@, nonce@, aad@, out->0@),
        out is Some ==> out->0@.len() + TAG_LEN == cipher@.len(),
        forall|p: Seq<u8>|
            p.len() <= AES_GCM_MAX_PLAIN && aad@.len() <= AES_GCM_MAX_AAD && cipher@
                == #[trigger] aes128_gcm_sealed(key@, nonce@, aad@, p) ==> out is Some && out->0@ == p,
{
    let c = aes_gcm::Aes128Gcm::new(aes_gcm::Key::<aes_gcm::Aes128Gcm>::from_slice(key));
    let payload = aes_gcm::aead::Payload { msg: cipher, aad };
    c.decrypt(aes_gcm::Nonce::from_slice(nonce), payload).ok()
}

/// Relies on `aes_gcm::Aes256Gcm` through `aead::Aead::encrypt`: it fails
/// exactly when the plaintext or the associated data exceeds its limit, and
/// appends a 16-byte tag to a ciphertext as long as the plaintext.
#[verifier::external_body]
pub(crate) fn aes256_gcm_encrypt(key: &[u8], nonce: &[u8], aad: &[u8], plain: &[u8]) -> (out: Option<Vec<u8>>)
    requires
        key@.len() == 32,
        nonce@.len() == 12,
    ensures
        out is Some ==> plain@.len() <= AES_GCM_MAX_PLAIN && aad@.len() <= AES_GCM_MAX_AAD,
        plain@.len() <= AES_GCM_MAX_PLAIN && aad@.len() <= AES_GCM_MAX_AAD ==> out is Some,
        out is Some ==> out->0@ == aes256_gcm_sealed(key@, nonce@, aad@, plain@),
        out is Some ==> out->0@.len() == plain@.len() + TAG_LEN,
{
    let cipher = aes_gcm::Aes256Gcm::new(aes_gcm::Key::<aes_gcm::Aes256Gcm>::from_slice(key));
    let payload = aes_gcm::aead::Payload { msg: plain, aad };
    cipher.encrypt(aes_gcm::Nonce::from_slice(nonce), payload).ok()
}

/// Relies on `aes_gcm::Aes256Gcm` through `aead::Aead::decrypt`: it checks
/// the tag and, where it matches, returns the plaintext that seals to
/// `cipher`; it fails on every other input.
#[verifier::external_body]
pub(crate) fn aes256_gcm_decrypt(key: &[u8], nonce: &[u8], aad: &[u8], cipher: &[u8]) -> (out: Option<Vec<u8>>)
    requires
        key@.len() == 32,
        nonce@.len() == 12,
        cipher@.len() <= AES_GCM_MAX_PLAIN + TAG_LEN,
    ensures
        out is Some ==> out->0@.len() <= AES_GCM_MAX_PLAIN,
        out is Some ==> aad@.len() <= AES_GCM_MAX_AAD,
        out is Some ==> cipher@ == aes256_gcm_sealed(key@, nonce@, aad@, out->0@),
        out is Some ==> out->0@.len() + TAG_LEN == cipher@.len(),
        forall|p: Seq<u8>|
            p.len() <= AES_GCM_MAX_PLAIN && aad@.len() <= AES_GCM_MAX_AAD && cipher@
                == #[trigger] aes256_gcm_sealed(key@, nonce@, aad@, p) ==> out is Some && out->0@ == p,
{
    let c = aes_gcm::Aes256Gcm::new(aes_gcm::Key::<aes_gcm::Aes256Gcm>::from_slice(key));
    let payload = aes_gcm::aead::Payload { msg: cipher, aad };
    c.decrypt(aes_gcm::Nonce::from_slice(nonce), payload).ok()
}

/// Relies on `chacha20poly1305::ChaCha20Poly1305` through
/// `aead::Aead::encrypt`: below its length limit it always succeeds, and
/// appends a 16-byte tag to a ciphertext as long as the plaintext.
#[verifier::external_body]
pub(crate) fn chacha20_poly1305_encrypt(
    key: &[u8],
    nonce: &[u8],
    aad: &[u8],
    plain: &[u8],
) -> (out: Option<Vec<u8>>)
    requires
        key@.len() == 32,
        nonce@.len() == 12,
        plain@.len() <= CHACHA_MAX_PLAIN,
    ensures
        out is Some,
        out is Some ==> out->0@ == chacha20_poly1305_sealed(key@, nonce@, aad@, plain@),
        out is Some ==> out->0@.len() == plain@.len() + TAG_LEN,
{
    let cipher = chacha20poly1305::ChaCha20Poly1305::new(chacha20poly1305::Key::from_slice(key));
    let payload = chacha20poly1305::aead::Payload { msg: plain, aad };
    cipher.encrypt(chacha20poly1305::Nonce::from_slice(nonce), payload).ok()
}

/// Relies on `chacha20poly1305::ChaCha20Poly1305` through
/// `aead::Aead::decrypt`: it checks the tag and, where it matches, returns the
/// plaintext that seals to `cipher`; it fails on every other input.
#[verifier::external_body]
pub(crate) fn chacha20_poly1305_decrypt(
    key: &[u8],
    nonce: &[u8],
    aad: &[u8],
    cipher: &[u8],
) -> (out: Option<Vec<u8>>)
    requires
        key@.len() == 32,
        nonce@.len() == 12,
        cipher@.len() <= CHACHA_MAX_PLAIN + TAG_LEN,
    ensures
        out is Some ==> out->0@.len() <= CHACHA_MAX_PLAIN,
        out is Some ==> cipher@ == chacha20_poly1305_sealed(key@, nonce@, aad@, out->0@),
        out is Some ==> out->0@.len() + TAG_LEN == cipher@.len(),
        forall|p: Seq<u8>|
            p.len() <= CHACHA_MAX_PLAIN && cipher@ == #[trigger] chacha20_poly1305_sealed(
                key@,
                nonce@,
                aad@,
                p,
            ) ==> out is Some && out->0@ == p,
{
    let c = chacha20poly1305::ChaCha20Poly1305::new(chacha20poly1305::Key::from_slice(key));
    let payload = chacha20poly1305::aead::Payload { msg: cipher, aad };
    c.decrypt(chacha20poly1305::Nonce::from_slice(nonce), payload).ok()
}

} // verus!
