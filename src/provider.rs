//! The capability every cipher provider offers, and one provider per mode.
use crate::error::Error;
use crate::mode::Mode;
use crate::primitives::{
    aes128_gcm_decrypt, aes128_gcm_encrypt, aes128_gcm_sealed, aes256_gcm_decrypt,
    aes256_gcm_encrypt, aes256_gcm_sealed, chacha20_poly1305_decrypt, chacha20_poly1305_encrypt,
    chacha20_poly1305_sealed, AES_GCM_MAX_AAD, AES_GCM_MAX_PLAIN, CHACHA_MAX_PLAIN, TAG_LEN,
};
use vstd::prelude::*;

verus! {

/// The key length of `m`, in bytes.
pub open spec fn key_length(m: Mode) -> nat {
    match m {
        Mode::AesGcm128 => 16,
        Mode::AesGcm256 => 32,
        Mode::ChaCha20Poly1305 => 32,
    }
}

/// The nonce length of `m`, in bytes.
pub open spec fn nonce_length(m: Mode) -> nat {
    12
}

/// The longest plaintext that `m` seals, in bytes.
pub open spec fn max_plain_length(m: Mode) -> nat {
    match m {
        Mode::ChaCha20Poly1305 => CHACHA_MAX_PLAIN as nat,
        _ => AES_GCM_MAX_PLAIN as nat,
    }
}

/// Whether `m` accepts associated data of `len` bytes.
pub open spec fn aad_fits(m: Mode, len: nat) -> bool {
    match m {
        Mode::ChaCha20Poly1305 => true,
        _ => len <= AES_GCM_MAX_AAD,
    }
}

/// The ciphertext that the cipher of `m` produces.
pub open spec fn sealed(
    m: Mode,
    key: Seq<u8>,
    nonce: Seq<u8>,
    aad: Seq<u8>,
    plain: Seq<u8>,
) -> Seq<u8> {
    match m {
        Mode::AesGcm128 => aes128_gcm_sealed(key, nonce, aad, plain),
        Mode::AesGcm256 => aes256_gcm_sealed(key, nonce, aad, plain),
        Mode::ChaCha20Poly1305 => chacha20_poly1305_sealed(key, nonce, aad, plain),
    }
}

/// Whether sealing under `m` is owed success: the key and nonce have the
/// mode's lengths and the plaintext and associated data are within its limits.
pub open spec fn seal_accepts(
    m: Mode,
    key: Seq<u8>,
    nonce: Seq<u8>,
    aad: Seq<u8>,
    plain: Seq<u8>,
) -> bool {
    &&& key.len() == key_length(m)
    &&& nonce.len() == nonce_length(m)
    &&& plain.len() <= max_plain_length(m)
    &&& aad_fits(m, aad.len())
}

/// What sealing `plain` under `m` gives: the key length is checked first, then
/// the nonce length, then the cipher's length limits. A sealed message is the
/// encrypted plaintext followed by a tag of `TAG_LEN` bytes.
pub open spec fn seal_outcome(
    m: Mode,
    key: Seq<u8>,
    nonce: Seq<u8>,
    aad: Seq<u8>,
    plain: Seq<u8>,
) -> Result<Seq<u8>, Error> {
    if key.len() != key_length(m) {
        Err(Error::InvalidConfig)
    } else if nonce.len() != nonce_length(m) {
        Err(Error::InvalidNonce)
    } else if plain.len() <= max_plain_length(m) && aad_fits(m, aad.len()) && sealed(
        m,
        key,
        nonce,
        aad,
        plain,
    ).len() == plain.len() + TAG_LEN {
        Ok(sealed(m, key, nonce, aad, plain))
    } else {
        Err(Error::OpenError)
    }
}

/// Whether `r` is what opening `cipher` under `m` gives. With well-sized key
/// and nonce, opening succeeds exactly on the ciphertexts that sealing
/// produces, and returns the plaintext that was sealed; every other
/// ciphertext is rejected with `OpenError`.
pub open spec fn opens_to(
    m: Mode,
    key: Seq<u8>,
    nonce: Seq<u8>,
    aad: Seq<u8>,
    cipher: Seq<u8>,
    r: Result<Seq<u8>, Error>,
) -> bool {
    if key.len() != key_length(m) {
        r == Err::<Seq<u8>, Error>(Error::InvalidConfig)
    } else if nonce.len() != nonce_length(m) {
        r == Err::<Seq<u8>, Error>(Error::InvalidNonce)
    } else {
        &&& forall|p: Seq<u8>|
            #[trigger] seal_outcome(m, key, nonce, aad, p) == Ok::<Seq<u8>, Error>(cipher) ==> r
                == Ok::<Seq<u8>, Error>(p)
        &&& match r {
            Ok(p) => seal_outcome(m, key, nonce, aad, p) == Ok::<Seq<u8>, Error>(cipher),
            Err(e) => e == Error::OpenError,
        }
    }
}

/// The bytes that a `Result` of sealing or opening carries.
pub open spec fn bytes_of(r: Result<Vec<u8>, Error>) -> Result<Seq<u8>, Error> {
    match r {
        Ok(v) => Ok(v@),
        Err(e) => Err(e),
    }
}

/// What a cipher provider offers: sealing, opening and its fixed lengths.
pub trait AeadTrait: Sized {
    /// The mode whose cipher this provider runs.
    spec fn mode(&self) -> Mode;

    fn new() -> Self;

    fn seal(&self, key: &[u8], nonce: &[u8], aad: &[u8], plain_txt: &[u8]) -> (r: Result<
        Vec<u8>,
        Error,
    >)
        ensures
            bytes_of(r) == seal_outcome(self.mode(), key@, nonce@, aad@, plain_txt@),
            seal_accepts(self.mode(), key@, nonce@, aad@, plain_txt@) ==> r is Ok,
    ;

    fn open(&self, key: &[u8], nonce: &[u8], aad: &[u8], cipher_txt: &[u8]) -> (r: Result<
        Vec<u8>,
        Error,
    >)
        ensures
            opens_to(self.mode(), key@, nonce@, aad@, cipher_txt@, bytes_of(r)),
    ;

    fn get_key_length(&self) -> (r: usize)
        ensures
            r == key_length(self.mode()),
    ;

    fn get_nonce_length(&self) -> (r: usize)
        ensures
            r == nonce_length(self.mode()),
    ;
}

/// Checks the key and nonce lengths that every provider needs.
fn check_lengths(m: Mode, key: &[u8], nonce: &[u8], key_len: usize, nonce_len: usize) -> (r:
    Result<(), Error>)
    requires
        key_len == key_length(m),
        nonce_len == nonce_length(m),
    ensures
        key@.len() != key_length(m) ==> r == Err::<(), Error>(Error::InvalidConfig),
        key@.len() == key_length(m) && nonce@.len() != nonce_length(m) ==> r == Err::<(), Error>(
            Error::InvalidNonce,
        ),
        key@.len() == key_length(m) && nonce@.len() == nonce_length(m) ==> r is Ok,
{
    if key.len() != key_len {
        Err(Error::InvalidConfig)
    } else if nonce.len() != nonce_len {
        Err(Error::InvalidNonce)
    } else {
        Ok(())
    }
}

/// The bytes carried by `o`, or `OpenError` where the cipher failed.
fn or_open_error(o: Option<Vec<u8>>) -> (r: Result<Vec<u8>, Error>)
    ensures
        o matches Some(v) ==> r matches Ok(w) && w@ == v@,
        o is None ==> r == Err::<Vec<u8>, Error>(Error::OpenError),
{
    match o {
        Some(v) => Ok(v),
        None => Err(Error::OpenError),
    }
}

/// AES-GCM with a 128-bit key.
pub struct AesGcm128;

impl AeadTrait for AesGcm128 {
    open spec fn mode(&self) -> Mode {
        Mode::AesGcm128
    }

    fn new() -> Self {
        AesGcm128
    }

    fn seal(&self, key: &[u8], nonce: &[u8], aad: &[u8], plain_txt: &[u8]) -> (r: Result<
        Vec<u8>,
        Error,
    >) {
        match check_lengths(
            Mode::AesGcm128,
            key,
            nonce,
            self.get_key_length(),
            self.get_nonce_length(),
        ) {
            Err(e) => Err(e),
            Ok(()) => or_open_error(aes128_gcm_encrypt(key, nonce, aad, plain_txt)),
        }
    }

    fn open(&self, key: &[u8], nonce: &[u8], aad: &[u8], cipher_txt: &[u8]) -> (r: Result<
        Vec<u8>,
        Error,
    >) {
        match check_lengths(
            Mode::AesGcm128,
            key,
            nonce,
            self.get_key_length(),
            self.get_nonce_length(),
        ) {
            Err(e) => Err(e),
            Ok(()) => {
                // No sealed message is longer than the plaintext limit and its tag.
                if cipher_txt.len() as u64 > AES_GCM_MAX_PLAIN + TAG_LEN {
                    Err(Error::OpenError)
                } else {
                    or_open_error(aes128_gcm_decrypt(key, nonce, aad, cipher_txt))
                }
            },
        }
    }

    fn get_key_length(&self) -> (r: usize) {
        16
    }

    fn get_nonce_length(&self) -> (r: usize) {
        12
    }
}

/// AES-GCM with a 256-bit key.
pub struct AesGcm256;

impl AeadTrait for AesGcm256 {
    open spec fn mode(&self) -> Mode {
        Mode::AesGcm256
    }

    fn new() -> Self {
        AesGcm256
    }

    fn seal(&self, key: &[u8], nonce: &[u8], aad: &[u8], plain_txt: &[u8]) -> (r: Result<
        Vec<u8>,
        Error,
    >) {
        match check_lengths(
            Mode::AesGcm256,
            key,
            nonce,
            self.get_key_length(),
            self.get_nonce_length(),
        ) {
            Err(e) => Err(e),
            Ok(()) => or_open_error(aes256_gcm_encrypt(key, nonce, aad, plain_txt)),
        }
    }

    fn open(&self, key: &[u8], nonce: &[u8], aad: &[u8], cipher_txt: &[u8]) -> (r: Result<
        Vec<u8>,
        Error,
    >) {
        match check_lengths(
            Mode::AesGcm256,
            key,
            nonce,
            self.get_key_length(),
            self.get_nonce_length(),
        ) {
            Err(e) => Err(e),
            Ok(()) => {
                // No sealed message is longer than the plaintext limit and its tag.
                if cipher_txt.len() as u64 > AES_GCM_MAX_PLAIN + TAG_LEN {
                    Err(Error::OpenError)
                } else {
                    or_open_error(aes256_gcm_decrypt(key, nonce, aad, cipher_txt))
                }
            },
        }
    }

    fn get_key_length(&self) -> (r: usize) {
        32
    }

    fn get_nonce_length(&self) -> (r: usize) {
        12
    }
}

/// ChaCha20 with Poly1305 as authenticator.
pub struct ChaCha20Poly1305;

impl AeadTrait for ChaCha20Poly1305 {
    open spec fn mode(&self) -> Mode {
        Mode::ChaCha20Poly1305
    }

    fn new() -> Self {
        ChaCha20Poly1305
    }

    fn seal(&self, key: &[u8], nonce: &[u8], aad: &[u8], plain_txt: &[u8]) -> (r: Result<
        Vec<u8>,
        Error,
    >) {
        match check_lengths(
            Mode::ChaCha20Poly1305,
            key,
            nonce,
            self.get_key_length(),
            self.get_nonce_length(),
        ) {
            Err(e) => Err(e),
            Ok(()) => {
                // Beyond this length the keystream would run out.
                if plain_txt.len() as u64 > CHACHA_MAX_PLAIN {
                    Err(Error::OpenError)
                } else {
                    or_open_error(chacha20_poly1305_encrypt(key, nonce, aad, plain_txt))
                }
            },
        }
    }

    fn open(&self, key: &[u8], nonce: &[u8], aad: &[u8], cipher_txt: &[u8]) -> (r: Result<
        Vec<u8>,
        Error,
    >) {
        match check_lengths(
            Mode::ChaCha20Poly1305,
            key,
            nonce,
            self.get_key_length(),
            self.get_nonce_length(),
        ) {
            Err(e) => Err(e),
            Ok(()) => {
                // No sealed message is longer than the plaintext limit and its tag.
                if cipher_txt.len() as u64 > CHACHA_MAX_PLAIN + TAG_LEN {
                    Err(Error::OpenError)
                } else {
                    or_open_error(chacha20_poly1305_decrypt(key, nonce, aad, cipher_txt))
                }
            },
        }
    }

    fn get_key_length(&self) -> (r: usize) {
        32
    }

    fn get_nonce_length(&self) -> (r: usize) {
        12
    }
}

} // verus!
