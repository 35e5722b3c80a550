//! Placeholder key material for the pluggable signer/encryptor
//! collaborator. The pool stores the bytes it is handed and never
//! interprets them; these mock routines hand back fixed all-zero
//! blobs, exactly as stated in their contracts.

use vstd::prelude::*;

verus! {

pub type KyberPublicKey = [u8; 32];

pub type KyberPrivateKey = [u8; 32];

pub type DilithiumPublicKey = [u8; 32];

pub type DilithiumPrivateKey = [u8; 32];

pub type DilithiumSignature = [u8; 64];

/// An opaque ciphertext blob a provider may hand to the pool.
#[derive(Debug, PartialEq, Eq)]
pub struct EncryptedData {
    pub ciphertext: Vec<u8>,
    pub nonce: [u8; 24],
}

/// Mock key generation: the placeholder keypair is all zeros.
pub fn kyber_keygen() -> (r: (KyberPublicKey, KyberPrivateKey))
    ensures
        forall|i: int| 0 <= i < 32 ==> r.0@[i] == 0,
        forall|i: int| 0 <= i < 32 ==> r.1@[i] == 0,
{
    ([0u8; 32], [0u8; 32])
}

/// Mock key generation: the placeholder keypair is all zeros.
pub fn dilithium_keygen() -> (r: (DilithiumPublicKey, DilithiumPrivateKey))
    ensures
        forall|i: int| 0 <= i < 32 ==> r.0@[i] == 0,
        forall|i: int| 0 <= i < 32 ==> r.1@[i] == 0,
{
    ([0u8; 32], [0u8; 32])
}

/// Mock signing: the placeholder signature is all zeros whatever the
/// key and message are.
pub fn dilithium_sign(private_key: &DilithiumPrivateKey, message: &[u8]) -> (r: DilithiumSignature)
    ensures
        forall|i: int| 0 <= i < 64 ==> r@[i] == 0,
{
    [0u8; 64]
}

} // verus!
