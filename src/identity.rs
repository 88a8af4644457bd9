//! The signing identity: one of a closed set of key schemes, loaded from PEM
//! key material.
use vstd::prelude::*;
use ic_agent::identity::{BasicIdentity, Secp256k1Identity};

verus! {

#[verifier::external_type_specification]
#[verifier::external_body]
pub struct ExSecp256k1Identity(Secp256k1Identity);

#[verifier::external_type_specification]
#[verifier::external_body]
pub struct ExBasicIdentity(BasicIdentity);

/// The PEM text holds a secp256k1 private key.
pub uninterp spec fn secp256k1_pem_ok(pem: Seq<char>) -> bool;

/// The PEM text holds an Ed25519 private key.
pub uninterp spec fn ed25519_pem_ok(pem: Seq<char>) -> bool;

/// Relies on `ic_agent::identity::Secp256k1Identity::from_pem`: reads a
/// secp256k1 key, or fails where the text holds none.
#[verifier::external_body]
fn load_secp256k1_identity(pem: &String) -> (r: Option<Secp256k1Identity>)
    ensures
        r is Some <==> secp256k1_pem_ok(pem@),
{
    Secp256k1Identity::from_pem(pem.as_bytes()).ok()
}

/// Relies on `ic_agent::identity::BasicIdentity::from_pem`: reads an Ed25519
/// key, or fails where the text holds none.
#[verifier::external_body]
fn load_basic_identity(pem: &String) -> (r: Option<BasicIdentity>)
    ensures
        r is Some <==> ed25519_pem_ok(pem@),
{
    BasicIdentity::from_pem(pem.as_bytes()).ok()
}

/// Why no identity could be loaded.
#[derive(Clone, Copy, Debug, PartialEq, Eq, Structural)]
pub enum IdentityError {
    /// No known key scheme reads the key material.
    CorruptKeyMaterial,
}

/// A signing identity.
pub enum Identity {
    Secp256k1(Secp256k1Identity),
    Basic(BasicIdentity),
}

impl Identity {
    /// Loads an identity from PEM key material, trying secp256k1 first and
    /// Ed25519 after it.
    pub fn load(pem: String) -> (r: Result<Identity, IdentityError>)
        ensures
            secp256k1_pem_ok(pem@) ==> r matches Ok(Identity::Secp256k1(_)),
            !secp256k1_pem_ok(pem@) && ed25519_pem_ok(pem@) ==> r matches Ok(Identity::Basic(_)),
            !secp256k1_pem_ok(pem@) && !ed25519_pem_ok(pem@) ==> r matches Err(
                IdentityError::CorruptKeyMaterial,
            ),
    {
        match load_secp256k1_identity(&pem) {
            Some(id) => Ok(Identity::Secp256k1(id)),
            None => match load_basic_identity(&pem) {
                Some(id) => Ok(Identity::Basic(id)),
                None => Err(IdentityError::CorruptKeyMaterial),
            },
        }
    }
}

} // verus!
