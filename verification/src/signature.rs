//! Ed25519 signatures: verification, the one capability that admission
//! takes from outside the ledger, and key generation and signing for the
//! holders of wallets.

use ed25519_dalek::{Signature, Signer, SigningKey, Verifier, VerifyingKey};
use rand::rngs::OsRng;
use vstd::prelude::*;

verus! {

/// Whether `signature` is a valid Ed25519 signature of `message` under the
/// key encoded by `public_key`. The function is not defined here: it stands
/// for the verdict of the `ed25519-dalek` crate, which depends on the three
/// byte strings alone.
pub uninterp spec fn signature_verifies(
    public_key: Seq<u8>,
    message: Seq<u8>,
    signature: Seq<u8>,
) -> bool;

/// `VerifyingKey::try_from`, `Signature::from_slice` and
/// `Verifier::verify` of `ed25519-dalek`: decodes the key and the signature
/// and checks the signature over `message`. The verdict is `true` only if
/// both decode and the check passes; a key that is not 32 bytes long or a
/// signature that is not 64 bytes long never decodes.
#[verifier::external_body]
fn ed25519_verify(public_key: &[u8], message: &[u8], signature: &[u8]) -> (ok: bool)
    ensures
        ok == signature_verifies(public_key@, message@, signature@),
        public_key@.len() != 32 ==> !ok,
        signature@.len() != 64 ==> !ok,
{
    match (VerifyingKey::try_from(public_key), Signature::from_slice(signature)) {
        (Ok(key), Ok(parsed)) => key.verify(message, &parsed).is_ok(),
        _ => false,
    }
}

/// Checks `signature` over `message` against `public_key`.
pub fn verify_signature(message: &[u8], signature: &[u8], public_key: &[u8]) -> (ok: bool)
    ensures
        ok == signature_verifies(public_key@, message@, signature@),
        public_key@.len() != 32 ==> !ok,
        signature@.len() != 64 ==> !ok,
{
    ed25519_verify(public_key, message, signature)
}

/// The Ed25519 signature of `message` under the secret key `secret_key`. The
/// function is not defined here: it stands for what the `ed25519-dalek`
/// crate computes, which depends on the two byte strings alone.
pub uninterp spec fn ed25519_signature(secret_key: Seq<u8>, message: Seq<u8>) -> Seq<u8>;

/// The public key that belongs to the secret key `secret_key`. The function
/// is not defined here: it stands for the key that `ed25519-dalek` derives
/// from the 32 secret bytes.
pub uninterp spec fn ed25519_public_key(secret_key: Seq<u8>) -> Seq<u8>;

/// `SigningKey::from_bytes` and `Signer::sign` of `ed25519-dalek`: signs
/// `message` with the 32-byte secret key. The signature is 64 bytes long,
/// and it verifies over `message` under the public key that belongs to the
/// secret key.
#[verifier::external_body]
fn ed25519_sign(secret_key: &[u8], message: &[u8]) -> (signature: Vec<u8>)
    requires
        secret_key@.len() == 32,
    ensures
        signature@ == ed25519_signature(secret_key@, message@),
        signature@.len() == 64,
        signature_verifies(ed25519_public_key(secret_key@), message@, signature@),
{
    let key: [u8; 32] = secret_key.try_into().unwrap();
    SigningKey::from_bytes(&key).sign(message).to_bytes().to_vec()
}

/// `SigningKey::generate` of `ed25519-dalek` on the operating system's
/// random source, then `SigningKey::verifying_key`: a fresh key pair as
/// bytes, the public half first. Both halves are 32 bytes long, and the
/// public half is the key that belongs to the secret half; nothing is
/// promised of which secret comes out.
#[verifier::external_body]
fn ed25519_generate() -> (pair: (Vec<u8>, Vec<u8>))
    ensures
        pair.0@.len() == 32,
        pair.1@.len() == 32,
        pair.0@ == ed25519_public_key(pair.1@),
{
    let key = SigningKey::generate(&mut OsRng);
    (key.verifying_key().to_bytes().to_vec(), key.to_bytes().to_vec())
}

/// A fresh key pair: the public key and the secret key it belongs to, 32
/// bytes each.
pub fn generate_keypair() -> (pair: (Vec<u8>, Vec<u8>))
    ensures
        pair.0@.len() == 32,
        pair.1@.len() == 32,
        pair.0@ == ed25519_public_key(pair.1@),
{
    ed25519_generate()
}

/// Signs `message` with `secret_key`. A key that is not 32 bytes long signs
/// nothing. The signature verifies under the public key that belongs to the
/// secret key.
pub fn sign_message(message: &[u8], secret_key: &[u8]) -> (signature: Option<Vec<u8>>)
    ensures
        secret_key@.len() != 32 ==> signature is None,
        secret_key@.len() == 32 ==> {
            &&& signature matches Some(made)
            &&& made@ == ed25519_signature(secret_key@, message@)
            &&& made@.len() == 64
            &&& signature_verifies(ed25519_public_key(secret_key@), message@, made@)
        },
{
    if secret_key.len() == 32 {
        Some(ed25519_sign(secret_key, message))
    } else {
        None
    }
}

} // verus!
