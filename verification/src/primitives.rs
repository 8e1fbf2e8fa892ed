//! The cryptographic primitives the seal is built from: BLAKE3 and Ed25519.
use vstd::prelude::*;
use crate::hex_text::hex_lower;

verus! {

/// The BLAKE3 digest (32 bytes) of a byte sequence.
pub uninterp spec fn blake3_digest(data: Seq<u8>) -> Seq<u8>;

/// The BLAKE3 keyed digest of `data` under a 32-byte key.
pub uninterp spec fn blake3_keyed_digest(key: Seq<u8>, data: Seq<u8>) -> Seq<u8>;

/// The Ed25519 public key (compressed, 32 bytes) of a 32-byte secret seed.
pub uninterp spec fn ed25519_public(seed: Seq<u8>) -> Seq<u8>;

/// The Ed25519 signature (64 bytes) of `msg` under the secret seed.
pub uninterp spec fn ed25519_signature(seed: Seq<u8>, msg: Seq<u8>) -> Seq<u8>;

/// Whether 32 bytes decompress to a curve point, so that they can serve as a public key.
pub uninterp spec fn ed25519_key_decodes(public: Seq<u8>) -> bool;

/// Whether the Ed25519 verification equation accepts `sig` on `msg` under `public`.
pub uninterp spec fn ed25519_accepts(public: Seq<u8>, msg: Seq<u8>, sig: Seq<u8>) -> bool;

/// `blake3::hash`: the contract names the digest of exactly these bytes.
#[verifier::external_body]
pub(crate) fn blake3_hash(data: &[u8]) -> (res: [u8; 32])
    ensures
        res@ == blake3_digest(data@),
{
    *blake3::hash(data).as_bytes()
}

/// `blake3::keyed_hash`: the contract names the keyed digest of exactly these bytes.
#[verifier::external_body]
pub(crate) fn blake3_keyed_hash(key: &[u8; 32], data: &[u8]) -> (res: [u8; 32])
    ensures
        res@ == blake3_keyed_digest(key@, data@),
{
    *blake3::keyed_hash(key, data).as_bytes()
}

/// `blake3::Hash::to_hex`: lowercase hex of the 32 digest bytes, two digits per byte.
#[verifier::external_body]
pub(crate) fn blake3_hex(digest: &[u8; 32]) -> (res: String)
    ensures
        res@ == hex_lower(digest@),
{
    blake3::Hash::from_bytes(*digest).to_hex().as_str().to_string()
}

/// `ed25519_dalek::SigningKey::verifying_key` of the key made from `seed`, as bytes.
/// Besides naming the key, the contract claims that these bytes decompress again
/// (they are the compression of a curve point); nothing else is claimed.
#[verifier::external_body]
pub(crate) fn ed25519_public_key(seed: &[u8; 32]) -> (res: [u8; 32])
    ensures
        res@ == ed25519_public(seed@),
        ed25519_key_decodes(res@),
{
    ed25519_dalek::SigningKey::from_bytes(seed).verifying_key().to_bytes()
}

/// `ed25519_dalek::SigningKey::sign` (deterministic Ed25519, RFC 8032) of `msg`.
/// Besides naming the signature, the contract claims that verification under the
/// matching public key accepts it, which is the correctness of the scheme.
#[verifier::external_body]
pub(crate) fn ed25519_sign(seed: &[u8; 32], msg: &[u8]) -> (res: [u8; 64])
    ensures
        res@ == ed25519_signature(seed@, msg@),
        ed25519_accepts(ed25519_public(seed@), msg@, res@),
{
    let key = ed25519_dalek::SigningKey::from_bytes(seed);
    ed25519_dalek::Signer::sign(&key, msg).to_bytes()
}

/// `ed25519_dalek::VerifyingKey::from_bytes` succeeds on these bytes.
#[verifier::external_body]
pub(crate) fn ed25519_key_is_valid(public: &[u8]) -> (res: bool)
    requires
        public@.len() == 32,
    ensures
        res == ed25519_key_decodes(public@),
{
    let public: [u8; 32] = public.try_into().unwrap();
    ed25519_dalek::VerifyingKey::from_bytes(&public).is_ok()
}

/// `ed25519_dalek::VerifyingKey::verify` (via `Verifier`) of `sig` on `msg`.
#[verifier::external_body]
pub(crate) fn ed25519_verify(public: &[u8], msg: &[u8], sig: &[u8]) -> (res: bool)
    requires
        public@.len() == 32,
        sig@.len() == 64,
        ed25519_key_decodes(public@),
    ensures
        res == ed25519_accepts(public@, msg@, sig@),
{
    let public: [u8; 32] = public.try_into().unwrap();
    let sig: [u8; 64] = sig.try_into().unwrap();
    match ed25519_dalek::VerifyingKey::from_bytes(&public) {
        Ok(key) => {
            let sig = ed25519_dalek::Signature::from_bytes(&sig);
            ed25519_dalek::Verifier::verify(&key, msg, &sig).is_ok()
        },
        Err(_) => false,
    }
}

} // verus!
