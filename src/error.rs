use vstd::prelude::*;

verus! {

/// The failures that sealing and opening report.
#[derive(Clone, Copy, Debug, PartialEq, Eq, Structural)]
pub enum Error {
    /// Authentication or decryption failed, or the cipher could not seal.
    OpenError,
    /// The key does not have the length that the cipher expects.
    InvalidConfig,
    /// The nonce does not have the length that the cipher expects.
    InvalidNonce,
}

} // verus!
