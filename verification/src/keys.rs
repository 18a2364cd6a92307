//! The placeholder keys of the insecure build. They are fixed and known to
//! everybody: a real build takes its keys from where only the isolated
//! environment can read them.

use crate::Error;
use vstd::prelude::*;

verus! {

/// The length of the placeholder keys, in bytes.
pub const KEY_SIZE: usize = 32;

/// Key material as a TA gets it: the bytes of the key themselves, or a
/// handle to a key that is kept elsewhere. The TA works with either.
#[derive(Debug, PartialEq, Eq)]
pub enum KeyMaterial {
    Explicit(Vec<u8>),
    Opaque(Vec<u8>),
}

/// `n` zero bytes.
pub open spec fn zeros(n: nat) -> Seq<u8> {
    Seq::new(n, |i: int| 0u8)
}

/// The pre-shared key by which the TA and the other services of the device
/// agree on a shared secret: all zeros.
pub fn preshared_key() -> (key: [u8; 32])
    ensures
        key@ == zeros(KEY_SIZE as nat),
{
    [0u8; 32]
}

/// Fake password key.
pub struct NonsecurePasswordKey;

impl NonsecurePasswordKey {
    /// The key that password records are tied to: always there, explicit,
    /// and all zeros.
    pub fn key(&self) -> (r: Result<KeyMaterial, Error>)
        ensures
            r matches Ok(KeyMaterial::Explicit(bytes)) && bytes@ == zeros(KEY_SIZE as nat),
    {
        let mut fake_key: Vec<u8> = Vec::new();
        while fake_key.len() < KEY_SIZE
            invariant
                fake_key.len() <= KEY_SIZE,
                fake_key@ == zeros(fake_key.len() as nat),
            decreases KEY_SIZE - fake_key.len(),
        {
            fake_key.push(0);
        }
        Ok(KeyMaterial::Explicit(fake_key))
    }
}

} // verus!
