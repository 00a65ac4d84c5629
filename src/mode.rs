use vstd::prelude::*;

verus! {

/// The AEAD algorithms that can be selected.
#[derive(Clone, Copy, Debug, PartialEq, Eq, Structural)]
pub enum Mode {
    AesGcm128,
    AesGcm256,
    ChaCha20Poly1305,
}

/// The stable numeric identifier of each mode.
pub open spec fn mode_number(m: Mode) -> u16 {
    match m {
        Mode::AesGcm128 => 1,
        Mode::AesGcm256 => 2,
        Mode::ChaCha20Poly1305 => 3,
    }
}

/// The mode that a numeric identifier names, if any.
pub open spec fn mode_from_number(x: u16) -> Option<Mode> {
    if x == 1 {
        Some(Mode::AesGcm128)
    } else if x == 2 {
        Some(Mode::AesGcm256)
    } else if x == 3 {
        Some(Mode::ChaCha20Poly1305)
    } else {
        None
    }
}

/// Every mode goes to its identifier and back, and every identifier that
/// names a mode is that mode's identifier.
pub proof fn lemma_mode_number_round_trip(m: Mode, x: u16)
    ensures
        mode_from_number(mode_number(m)) == Some(m),
        mode_from_number(x) matches Some(n) ==> mode_number(n) == x,
{
}

/// The numeric identifier of `mode`.
pub fn numeric_of(mode: Mode) -> (r: u16)
    ensures
        r == mode_number(mode),
{
    match mode {
        Mode::AesGcm128 => 1,
        Mode::AesGcm256 => 2,
        Mode::ChaCha20Poly1305 => 3,
    }
}

/// The mode named by `x`, which must be a known identifier.
pub fn mode_of(x: u16) -> (r: Mode)
    requires
        mode_from_number(x) is Some,
    ensures
        mode_from_number(x) == Some(r),
{
    if x == 1 {
        Mode::AesGcm128
    } else if x == 2 {
        Mode::AesGcm256
    } else {
        Mode::ChaCha20Poly1305
    }
}

/// The mode named by `x`, or `None` where `x` names no mode.
pub fn try_mode_of(x: u16) -> (r: Option<Mode>)
    ensures
        r == mode_from_number(x),
{
    if 1 <= x && x <= 3 {
        Some(mode_of(x))
    } else {
        None
    }
}

} // verus!
