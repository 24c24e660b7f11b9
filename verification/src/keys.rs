//! Key material and key-identifier derivation.
//!
//! A signing key pair and a symmetric encryption key are created at process
//! start and live for the process lifetime. Key identifiers are derived
//! deterministically from the key bytes (content addressing), so a token's
//! embedded identifier resolves the exact key that must verify it; this is
//! what makes rotation safe.

use vstd::prelude::*;

use pasetors::keys::{AsymmetricKeyPair, AsymmetricPublicKey, Generate, SymmetricKey};
use pasetors::paserk::{FormatAsPaserk, Id};
use pasetors::version4::V4;

use crate::errors::AuthError;

verus! {

/// The Ed25519 public key derived from a 32-byte seed, as ed25519-compact's
/// key generation computes it: a deterministic function of the seed alone.
pub uninterp spec fn ed_public_of(seed: Seq<u8>) -> Seq<u8>;

/// The paserk `k4.pid` identifier string of a 32-byte public key: a
/// deterministic digest of the key bytes.
pub uninterp spec fn public_kid_of(pk: Seq<u8>) -> Seq<char>;

/// The paserk `k4.lid` identifier string of a 32-byte symmetric key: a
/// deterministic digest of the key bytes.
pub uninterp spec fn local_kid_of(k: Seq<u8>) -> Seq<char>;

/// The paserk `k4.public` serialization of a 32-byte public key.
pub uninterp spec fn public_paserk_of(pk: Seq<u8>) -> Seq<char>;

/// An Ed25519 signing key pair in pasetors' V4 layout: the secret key is
/// the 32-byte seed followed by the 32-byte public key derived from it.
pub struct KeyPair {
    secret: Vec<u8>,
    public: Vec<u8>,
}

impl KeyPair {
    /// The secret key bytes (seed followed by public key).
    pub closed spec fn spec_secret(self) -> Seq<u8> {
        self.secret@
    }

    /// The public key bytes.
    pub closed spec fn spec_public(self) -> Seq<u8> {
        self.public@
    }

    /// Every key pair is genuine: the public half is embedded in the
    /// secret key and is the Ed25519 public key of the seed.
    #[verifier::type_invariant]
    spec fn wf(self) -> bool {
        &&& self.secret@.len() == 64
        &&& self.public@.len() == 32
        &&& self.public@ == self.secret@.subrange(32, 64)
        &&& self.public@ == ed_public_of(self.secret@.subrange(0, 32))
    }

    /// The public key bytes, for serialization and identifier derivation.
    pub fn public_bytes(&self) -> (r: &Vec<u8>)
        ensures
            r@ == self.spec_public(),
            r@.len() == 32,
    {
        proof {
            use_type_invariant(self);
        }
        &self.public
    }

    /// The secret key bytes, for the signing wrapper.
    pub(crate) fn secret_bytes(&self) -> (r: &Vec<u8>)
        ensures
            r@ == self.spec_secret(),
            r@.len() == 64,
            self.spec_public() == r@.subrange(32, 64),
    {
        proof {
            use_type_invariant(self);
        }
        &self.secret
    }
}

/// Relies on pasetors' V4 key-pair generation (ed25519-compact underneath):
/// the secret key is `seed || public` with the public half derived from the
/// seed, which is exactly this type's invariant.
#[verifier::external_body]
pub fn generate_keypair() -> (r: Result<KeyPair, AuthError>)
    ensures
        r matches Ok(kp) ==> kp.spec_public() == ed_public_of(kp.spec_secret().subrange(0, 32)),
        r matches Err(e) ==> e == AuthError::Storage,
{
    match AsymmetricKeyPair::<V4>::generate() {
        Ok(kp) => Ok(
            KeyPair {
                secret: kp.secret.as_bytes().to_vec(),
                public: kp.public.as_bytes().to_vec(),
            },
        ),
        Err(_) => Err(AuthError::Storage),
    }
}

/// A 32-byte symmetric key for encrypting refresh tokens.
pub struct SymmetricKeyBytes {
    bytes: Vec<u8>,
}

impl SymmetricKeyBytes {
    /// The key bytes.
    pub closed spec fn spec_bytes(self) -> Seq<u8> {
        self.bytes@
    }

    #[verifier::type_invariant]
    spec fn wf(self) -> bool {
        self.bytes@.len() == 32
    }

    /// Builds a key from caller-supplied material; exactly 32 bytes are
    /// accepted.
    pub fn from_bytes(bytes: Vec<u8>) -> (r: Result<Self, AuthError>)
        ensures
            bytes@.len() == 32 ==> (r matches Ok(k) && k.spec_bytes() == bytes@),
            bytes@.len() != 32 ==> r == Err::<Self, AuthError>(AuthError::Storage),
    {
        if bytes.len() == 32 {
            Ok(SymmetricKeyBytes { bytes })
        } else {
            Err(AuthError::Storage)
        }
    }

    /// The key bytes, for the encryption wrapper and identifier derivation.
    pub fn as_bytes(&self) -> (r: &Vec<u8>)
        ensures
            r@ == self.spec_bytes(),
            r@.len() == 32,
    {
        proof {
            use_type_invariant(self);
        }
        &self.bytes
    }
}

/// Relies on pasetors' V4 symmetric key generation: 32 fresh random bytes.
#[verifier::external_body]
pub fn generate_symmetric_key() -> (r: Result<SymmetricKeyBytes, AuthError>)
    ensures
        r matches Err(e) ==> e == AuthError::Storage,
{
    match SymmetricKey::<V4>::generate() {
        Ok(k) => Ok(SymmetricKeyBytes { bytes: k.as_bytes().to_vec() }),
        Err(_) => Err(AuthError::Storage),
    }
}

/// Relies on pasetors' paserk `Id`: the `k4.pid` string is a deterministic
/// blake2b digest of the public key's paserk serialization. A 32-byte key
/// is always accepted and formatting into a `String` cannot fail.
#[verifier::external_body]
pub fn derive_public_kid(pk: &Vec<u8>) -> (r: String)
    requires
        pk@.len() == 32,
    ensures
        r@ == public_kid_of(pk@),
{
    let key = AsymmetricPublicKey::<V4>::from(pk.as_slice()).unwrap();
    let mut s = String::new();
    Id::from(&key).fmt(&mut s).unwrap();
    s
}

/// Relies on pasetors' paserk `Id`: the `k4.lid` string is a deterministic
/// blake2b digest of the symmetric key's paserk serialization.
#[verifier::external_body]
pub fn derive_local_kid(k: &Vec<u8>) -> (r: String)
    requires
        k@.len() == 32,
    ensures
        r@ == local_kid_of(k@),
{
    let key = SymmetricKey::<V4>::from(k.as_slice()).unwrap();
    let mut s = String::new();
    Id::from(&key).fmt(&mut s).unwrap();
    s
}

/// Relies on pasetors' `FormatAsPaserk` for public keys: the deterministic
/// `k4.public.` serialization of the key bytes.
#[verifier::external_body]
pub fn serialize_public_key(pk: &Vec<u8>) -> (r: String)
    requires
        pk@.len() == 32,
    ensures
        r@ == public_paserk_of(pk@),
{
    let key = AsymmetricPublicKey::<V4>::from(pk.as_slice()).unwrap();
    let mut s = String::new();
    key.fmt(&mut s).unwrap();
    s
}

} // verus!
