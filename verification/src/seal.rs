//! Producing a seal for a result: A-hash, B-hash, and the Ed25519 signature over
//! Wax, A-hash, B-hash and the result digest.
use vstd::prelude::*;
use vstd::utf8::*;
use crate::hex_text::{hex_encode, hex_lower, lemma_hex_roundtrip};
use crate::primitives::{
    blake3_digest, blake3_keyed_digest, blake3_keyed_hash, ed25519_public, ed25519_public_key,
    ed25519_sign, ed25519_signature,
};
use crate::verify::{
    a_hash_spec, compute_a_hash, concat_bytes, has_sha256_prefix, identity_verdict, is_digest_hex,
    is_lower_hex_digit,
    root_hex_part, seal_message, seal_verdict, sha256_prefix, signed_text, SealFieldsView,
    SealedResponseView,
};

verus! {

/// The key of the result binding: BLAKE3 of the A-hash bytes followed by the Wax's
/// bytes. This derivation is this library's own construction of the binding
/// function that the protocol leaves unpublished; it is not a published standard.
pub open spec fn binding_key_spec(a_hash: Seq<u8>, wax: Seq<char>) -> Seq<u8> {
    blake3_digest(a_hash + encode_utf8(wax))
}

/// The B-hash: the keyed BLAKE3 digest of the result bytes, under a key derived
/// from the A-hash and the Wax (the library's own construction, see `binding_key_spec`).
pub open spec fn b_hash_spec(a_hash: Seq<u8>, wax: Seq<char>, result: Seq<u8>) -> Seq<u8> {
    blake3_keyed_digest(binding_key_spec(a_hash, wax), result)
}

/// A seal: all four fields are lowercase hex.
#[derive(Clone, Debug, PartialEq, Eq)]
pub struct Seal {
    pub signature: String,
    pub pub_key: String,
    pub a_hash: String,
    pub b_hash: String,
}

/// The seal as the verifier reads it, next to the result text it seals.
pub open spec fn sealed_view(seal: Seal, result: Seq<char>) -> SealedResponseView {
    SealedResponseView {
        openseal: Some(
            SealFieldsView {
                a_hash: Some(seal.a_hash@),
                b_hash: Some(seal.b_hash@),
                signature: Some(seal.signature@),
                pub_key: Some(seal.pub_key@),
            },
        ),
        result: Some(result),
    }
}

/// `seal` holds exactly the hex of the A-hash, the B-hash, the public key and the
/// signature over Wax, A, B and the result digest, for these inputs.
pub open spec fn is_seal_of(
    seal: Seal,
    seed: Seq<u8>,
    root: Seq<u8>,
    wax: Seq<char>,
    result: Seq<char>,
) -> bool {
    &&& seal.a_hash@ == hex_lower(a_hash_spec(root, wax))
    &&& seal.b_hash@ == hex_lower(b_hash_spec(a_hash_spec(root, wax), wax, encode_utf8(result)))
    &&& seal.pub_key@ == hex_lower(ed25519_public(seed))
    &&& seal.signature@ == hex_lower(
        ed25519_signature(seed, seal_message(wax, seal.a_hash@, seal.b_hash@, result)),
    )
}

/// The seal passes verification with the Wax it was made for: with no root hash
/// expected, and with its root hash expected as hex, with or without `sha256:`.
pub open spec fn passes_verification(
    seal: Seal,
    root: Seq<u8>,
    wax: Seq<char>,
    result: Seq<char>,
) -> bool {
    &&& seal_verdict(sealed_view(seal, result), wax, None) is Ok
    &&& seal_verdict(sealed_view(seal, result), wax, Some(hex_lower(root))) is Ok
    &&& seal_verdict(sealed_view(seal, result), wax, Some(sha256_prefix() + hex_lower(root))) is Ok
}

/// The B-hash of a result under an A-hash and a Wax.
pub fn compute_b_hash(a_hash: &[u8], wax: &str, result: &[u8]) -> (res: [u8; 32])
    ensures
        res@ == b_hash_spec(a_hash@, wax@, result@),
{
    let key_material = concat_bytes(a_hash, wax.as_bytes());
    let key = crate::primitives::blake3_hash(key_material.as_slice());
    blake3_keyed_hash(&key, result)
}

/// Lowercase hex of the Ed25519 public key of a seed.
pub fn public_key_hex(seed: &[u8; 32]) -> (res: String)
    ensures
        res@ == hex_lower(ed25519_public(seed@)),
{
    let pk = ed25519_public_key(seed);
    hex_encode(&pk)
}

/// The hex of a 32-byte digest is digest text: 64 lowercase hex digits.
pub proof fn lemma_digest_text(bytes: Seq<u8>)
    requires
        bytes.len() == 32,
    ensures
        is_digest_hex(hex_lower(bytes)),
{
    assert forall|i: int| 0 <= i < 64 implies is_lower_hex_digit(#[trigger] hex_lower(bytes)[i]) by {
        let b = bytes[i / 2];
        assert(0 <= b / 16 < 16);
        assert(0 <= b % 16 < 16);
    }
}

/// An A-hash reported for a root hash passes the identity check against that root
/// hash, written as hex with or without the `sha256:` prefix.
pub proof fn lemma_identity_accepts(root: Seq<u8>, wax: Seq<char>)
    requires
        root.len() == 32,
    ensures
        identity_verdict(hex_lower(a_hash_spec(root, wax)), wax, Some(hex_lower(root)))
            == Ok::<(), crate::verify::VerifyFailure>(()),
        identity_verdict(
            hex_lower(a_hash_spec(root, wax)),
            wax,
            Some(sha256_prefix() + hex_lower(root)),
        ) == Ok::<(), crate::verify::VerifyFailure>(()),
{
    lemma_hex_roundtrip(root);
    let h = hex_lower(root);
    // hex text never starts with the prefix: its first character is a digit or a-f
    assert(h[0] != 's') by {
        assert(0 <= root[0] / 16 < 16);
    }
    if has_sha256_prefix(h) {
        assert(h.subrange(0, 7)[0] == h[0]);
    }
    assert(root_hex_part(h) == h);
    let p = sha256_prefix() + h;
    assert(p.subrange(0, 7) =~= sha256_prefix());
    assert(p.subrange(7, p.len() as int) =~= h);
    assert(root_hex_part(p) == h);
}

/// Seals a standard result text for a request carrying `wax`, with the runtime's
/// signing seed and root hash. The fields are exactly the hex of the A-hash, the
/// B-hash, the public key, and the signature over Wax, A, B and the result digest;
/// and the seal passes verification with the same Wax, with no root hash expected
/// and with the root hash expected in either hex form.
pub fn seal_result(seed: &[u8; 32], root: &[u8; 32], wax: &str, result: &str) -> (seal: Seal)
    ensures
        is_seal_of(seal, seed@, root@, wax@, result@),
        passes_verification(seal, root@, wax@, result@),
{
    let a = compute_a_hash(root, wax);
    let a_hex = hex_encode(&a);
    let b = compute_b_hash(&a, wax, result.as_bytes());
    let b_hex = hex_encode(&b);
    let message = signed_text(wax, a_hex.as_str(), b_hex.as_str(), result);
    let msg = message.as_str().as_bytes();
    let sig = ed25519_sign(seed, msg);
    let sig_hex = hex_encode(&sig);
    let pk = ed25519_public_key(seed);
    let pk_hex = hex_encode(&pk);
    proof {
        lemma_hex_roundtrip(pk@);
        lemma_hex_roundtrip(sig@);
        lemma_identity_accepts(root@, wax@);
        lemma_digest_text(a@);
        lemma_hex_roundtrip(a@);
        lemma_digest_text(b@);
        assert(msg@ == seal_message(wax@, a_hex@, b_hex@, result@));
    }
    Seal { signature: sig_hex, pub_key: pk_hex, a_hash: a_hex, b_hash: b_hex }
}

} // verus!
