//! The facade: one provider, chosen by mode at construction.
use crate::error::Error;
use crate::mode::Mode;
use crate::provider::{
    bytes_of, key_length, nonce_length, opens_to, seal_accepts, seal_outcome, AeadTrait, AesGcm128, AesGcm256,
    ChaCha20Poly1305,
};
use vstd::prelude::*;

verus! {

/// The provider that a facade holds, one variant per mode.
enum Provider {
    AesGcm128(AesGcm128),
    AesGcm256(AesGcm256),
    ChaCha20Poly1305(ChaCha20Poly1305),
}

impl Provider {
    spec fn mode(&self) -> Mode {
        match self {
            Provider::AesGcm128(p) => p.mode(),
            Provider::AesGcm256(p) => p.mode(),
            Provider::ChaCha20Poly1305(p) => p.mode(),
        }
    }
}

/// A fresh provider for `mode`.
fn get_aead_object(mode: Mode) -> (r: Provider)
    ensures
        r.mode() == mode,
{
    match mode {
        Mode::AesGcm128 => Provider::AesGcm128(AesGcm128::new()),
        Mode::AesGcm256 => Provider::AesGcm256(AesGcm256::new()),
        Mode::ChaCha20Poly1305 => Provider::ChaCha20Poly1305(ChaCha20Poly1305::new()),
    }
}

/// Seals and opens with the cipher of the mode it was built for.
pub struct Aead {
    aead: Provider,
}

impl Aead {
    /// The mode this facade was built for.
    pub closed spec fn mode(&self) -> Mode {
        self.aead.mode()
    }

    pub fn new(mode: Mode) -> (r: Self)
        ensures
            r.mode() == mode,
    {
        Aead { aead: get_aead_object(mode) }
    }

    /// The key length of the mode, in bytes.
    pub fn get_nk(&self) -> (r: usize)
        ensures
            r == key_length(self.mode()),
    {
        match &self.aead {
            Provider::AesGcm128(p) => p.get_key_length(),
            Provider::AesGcm256(p) => p.get_key_length(),
            Provider::ChaCha20Poly1305(p) => p.get_key_length(),
        }
    }

    /// The nonce length of the mode, in bytes.
    pub fn get_nn(&self) -> (r: usize)
        ensures
            r == nonce_length(self.mode()),
    {
        match &self.aead {
            Provider::AesGcm128(p) => p.get_nonce_length(),
            Provider::AesGcm256(p) => p.get_nonce_length(),
            Provider::ChaCha20Poly1305(p) => p.get_nonce_length(),
        }
    }

    /// Encrypts `plain_txt` and authenticates it together with `aad`.
    pub fn seal(&self, key: &[u8], nonce: &[u8], aad: &[u8], plain_txt: &[u8]) -> (r: Result<
        Vec<u8>,
        Error,
    >)
        ensures
            bytes_of(r) == seal_outcome(self.mode(), key@, nonce@, aad@, plain_txt@),
            seal_accepts(self.mode(), key@, nonce@, aad@, plain_txt@) ==> r is Ok,
    {
        match &self.aead {
            Provider::AesGcm128(p) => p.seal(key, nonce, aad, plain_txt),
            Provider::AesGcm256(p) => p.seal(key, nonce, aad, plain_txt),
            Provider::ChaCha20Poly1305(p) => p.seal(key, nonce, aad, plain_txt),
        }
    }

    /// Checks `cipher_txt` against `aad` and returns the plaintext it holds.
    pub fn open(&self, key: &[u8], nonce: &[u8], aad: &[u8], cipher_txt: &[u8]) -> (r: Result<
        Vec<u8>,
        Error,
    >)
        ensures
            opens_to(self.mode(), key@, nonce@, aad@, cipher_txt@, bytes_of(r)),
    {
        match &self.aead {
            Provider::AesGcm128(p) => p.open(key, nonce, aad, cipher_txt),
            Provider::AesGcm256(p) => p.open(key, nonce, aad, cipher_txt),
            Provider::ChaCha20Poly1305(p) => p.open(key, nonce, aad, cipher_txt),
        }
    }
}

/// Opening what sealing produced, under the same mode, key, nonce and
/// associated data, gives back the sealed plaintext.
pub proof fn lemma_round_trip(
    m: Mode,
    key: Seq<u8>,
    nonce: Seq<u8>,
    aad: Seq<u8>,
    plain: Seq<u8>,
    cipher: Seq<u8>,
    opened: Result<Seq<u8>, Error>,
)
    requires
        seal_outcome(m, key, nonce, aad, plain) == Ok::<Seq<u8>, Error>(cipher),
        opens_to(m, key, nonce, aad, cipher, opened),
    ensures
        opened == Ok::<Seq<u8>, Error>(plain),
{
}

/// Opening is a function of its inputs: two openings of the same ciphertext
/// under the same mode, key, nonce and associated data end alike, in
/// particular fail alike.
pub proof fn lemma_open_deterministic(
    m: Mode,
    key: Seq<u8>,
    nonce: Seq<u8>,
    aad: Seq<u8>,
    cipher: Seq<u8>,
    first: Result<Seq<u8>, Error>,
    second: Result<Seq<u8>, Error>,
)
    requires
        opens_to(m, key, nonce, aad, cipher, first),
        opens_to(m, key, nonce, aad, cipher, second),
    ensures
        first == second,
{
}

} // verus!
