//! A uniform interface over several AEAD ciphers, chosen at run time.

mod aead;
mod error;
mod mode;
mod primitives;
mod provider;

pub use aead::{lemma_open_deterministic, lemma_round_trip, Aead};
pub use error::Error;
pub use mode::{
    lemma_mode_number_round_trip, mode_from_number, mode_number, mode_of, numeric_of, try_mode_of,
    Mode,
};
pub use primitives::{
    aes128_gcm_sealed, aes256_gcm_sealed, chacha20_poly1305_sealed, AES_GCM_MAX_AAD,
    AES_GCM_MAX_PLAIN, CHACHA_MAX_PLAIN, TAG_LEN,
};
pub use provider::{
    aad_fits, bytes_of, key_length, max_plain_length, nonce_length, opens_to, seal_accepts,
    seal_outcome, sealed, AeadTrait, AesGcm128, AesGcm256, ChaCha20Poly1305,
};
