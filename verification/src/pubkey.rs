use vstd::prelude::*;

verus! {

/// A 32-byte account address, stored as two little-endian 128-bit words.
///
/// The processor only ever compares addresses for equality and carries them
/// between records, so the address is held as plain machine words; the
/// derivation of fresh addresses lives in the addressing module.
#[derive(Clone, Copy, Debug, PartialEq, Eq, Structural)]
pub struct Pubkey {
    /// Bytes 0..16 of the address, little-endian.
    pub lo: u128,
    /// Bytes 16..32 of the address, little-endian.
    pub hi: u128,
}

} // verus!
