//! Checking a sealed response: the signature over (Wax, A, B, hash of the result)
//! and, on request, the identity of the A-hash against a published root hash.
use vstd::prelude::*;
use vstd::utf8::*;
use vstd::string::StringSliceAdditionalSpecFns;
use crate::hex_text::{hex_decode, hex_decode_spec, hex_encode, hex_lower, HexError};
use crate::primitives::{
    blake3_digest, blake3_hash, blake3_hex, ed25519_accepts, ed25519_key_decodes,
    ed25519_key_is_valid, ed25519_verify,
};
use crate::seal::{b_hash_spec, compute_b_hash};

verus! {

/// The seal fields of a response; `None` where a field is missing or not a string.
#[derive(Clone, Debug, PartialEq, Eq)]
pub struct SealFields {
    pub a_hash: Option<String>,
    pub b_hash: Option<String>,
    pub signature: Option<String>,
    pub pub_key: Option<String>,
}

/// A response as the verifier reads it: the `openseal` object (if any) and the
/// standard serialisation of the `result` value (if any).
#[derive(Clone, Debug, PartialEq, Eq)]
pub struct SealedResponse {
    pub openseal: Option<SealFields>,
    pub result: Option<String>,
}

/// The text of an optional string.
pub open spec fn opt_text(s: Option<String>) -> Option<Seq<char>> {
    match s {
        Some(t) => Some(t@),
        None => None,
    }
}

/// The seal fields as text.
pub struct SealFieldsView {
    pub a_hash: Option<Seq<char>>,
    pub b_hash: Option<Seq<char>>,
    pub signature: Option<Seq<char>>,
    pub pub_key: Option<Seq<char>>,
}

/// A response as text.
pub struct SealedResponseView {
    pub openseal: Option<SealFieldsView>,
    pub result: Option<Seq<char>>,
}

impl View for SealFields {
    type V = SealFieldsView;

    open spec fn view(&self) -> SealFieldsView {
        SealFieldsView {
            a_hash: opt_text(self.a_hash),
            b_hash: opt_text(self.b_hash),
            signature: opt_text(self.signature),
            pub_key: opt_text(self.pub_key),
        }
    }
}

impl View for SealedResponse {
    type V = SealedResponseView;

    open spec fn view(&self) -> SealedResponseView {
        SealedResponseView {
            openseal: match self.openseal {
                Some(f) => Some(f@),
                None => None,
            },
            result: opt_text(self.result),
        }
    }
}

/// Why a sealed response was refused.
#[derive(Clone, Debug, PartialEq, Eq)]
pub enum VerifyError {
    MissingOpenseal,
    MissingResult,
    MissingAHash,
    MissingBHash,
    MissingSignature,
    MissingPubKey,
    /// The reported A-hash is not 64 lowercase hex digits.
    AHashFormat,
    /// The reported B-hash is not 64 lowercase hex digits.
    BHashFormat,
    PubKeyHex(HexError),
    PubKeyLength,
    PubKeyFormat,
    SignatureHex(HexError),
    SignatureLength,
    SignatureRejected,
    /// The B-hash is not the binding of the result under the A-hash and the Wax.
    BindingMismatch,
    RootHashHex(HexError),
    RootHashLength,
    /// The A-hash recomputed from the expected root hash, and the one the response reports.
    IdentityMismatch { computed: String, reported: String },
}

/// Why a sealed response is refused, as text.
pub enum VerifyFailure {
    MissingOpenseal,
    MissingResult,
    MissingAHash,
    MissingBHash,
    MissingSignature,
    MissingPubKey,
    /// The reported A-hash is not 64 lowercase hex digits.
    AHashFormat,
    /// The reported B-hash is not 64 lowercase hex digits.
    BHashFormat,
    PubKeyHex(HexError),
    PubKeyLength,
    PubKeyFormat,
    SignatureHex(HexError),
    SignatureLength,
    SignatureRejected,
    /// The B-hash is not the binding of the result under the A-hash and the Wax.
    BindingMismatch,
    RootHashHex(HexError),
    RootHashLength,
    IdentityMismatch { computed: Seq<char>, reported: Seq<char> },
}

impl View for VerifyError {
    type V = VerifyFailure;

    open spec fn view(&self) -> VerifyFailure {
        match self {
            VerifyError::MissingOpenseal => VerifyFailure::MissingOpenseal,
            VerifyError::MissingResult => VerifyFailure::MissingResult,
            VerifyError::MissingAHash => VerifyFailure::MissingAHash,
            VerifyError::MissingBHash => VerifyFailure::MissingBHash,
            VerifyError::MissingSignature => VerifyFailure::MissingSignature,
            VerifyError::MissingPubKey => VerifyFailure::MissingPubKey,
            VerifyError::AHashFormat => VerifyFailure::AHashFormat,
            VerifyError::BHashFormat => VerifyFailure::BHashFormat,
            VerifyError::PubKeyHex(e) => VerifyFailure::PubKeyHex(*e),
            VerifyError::PubKeyLength => VerifyFailure::PubKeyLength,
            VerifyError::PubKeyFormat => VerifyFailure::PubKeyFormat,
            VerifyError::SignatureHex(e) => VerifyFailure::SignatureHex(*e),
            VerifyError::SignatureLength => VerifyFailure::SignatureLength,
            VerifyError::SignatureRejected => VerifyFailure::SignatureRejected,
            VerifyError::BindingMismatch => VerifyFailure::BindingMismatch,
            VerifyError::RootHashHex(e) => VerifyFailure::RootHashHex(*e),
            VerifyError::RootHashLength => VerifyFailure::RootHashLength,
            VerifyError::IdentityMismatch { computed, reported } => VerifyFailure::IdentityMismatch {
                computed: computed@,
                reported: reported@,
            },
        }
    }
}

/// A verification outcome as text.
pub open spec fn verdict_view(r: Result<(), VerifyError>) -> Result<(), VerifyFailure> {
    match r {
        Ok(()) => Ok(()),
        Err(e) => Err(e@),
    }
}

/// A-hash of a root hash under a Wax: BLAKE3 of the root hash bytes followed by the
/// UTF-8 bytes of the Wax.
pub open spec fn a_hash_spec(root: Seq<u8>, wax: Seq<char>) -> Seq<u8> {
    blake3_digest(root + encode_utf8(wax))
}

/// The A-hash is the BLAKE3 digest of the root hash bytes followed by exactly the
/// UTF-8 bytes of the Wax as sent, whatever characters the Wax holds.
pub proof fn lemma_a_hash_is_blake3_of_root_and_wax(root: Seq<u8>, wax: Seq<char>)
    ensures
        a_hash_spec(root, wax) == blake3_digest(root + encode_utf8(wax)),
{
}

/// Lowercase hex of the BLAKE3 digest of the result text's UTF-8 bytes.
pub open spec fn result_digest_hex(result: Seq<char>) -> Seq<char> {
    hex_lower(blake3_digest(encode_utf8(result)))
}

/// The signed message: the UTF-8 bytes of Wax, A-hash hex, B-hash hex and the
/// result digest hex, one after the other.
pub open spec fn seal_message(
    wax: Seq<char>,
    a_hex: Seq<char>,
    b_hex: Seq<char>,
    result: Seq<char>,
) -> Seq<u8> {
    encode_utf8(wax + a_hex + b_hex + result_digest_hex(result))
}

/// The prefix that marks a digest as SHA-256.
pub open spec fn sha256_prefix() -> Seq<char> {
    seq!['s', 'h', 'a', '2', '5', '6', ':']
}

/// Whether text begins with the SHA-256 prefix.
pub open spec fn has_sha256_prefix(s: Seq<char>) -> bool {
    s.len() >= 7 && s.subrange(0, 7) == sha256_prefix()
}

/// The hex part of an expected root hash: without its SHA-256 prefix, if it has one.
pub open spec fn root_hex_part(expected: Seq<char>) -> Seq<char> {
    if has_sha256_prefix(expected) {
        expected.subrange(7, expected.len() as int)
    } else {
        expected
    }
}

/// A lowercase hex digit, as the runtime writes them.
pub open spec fn is_lower_hex_digit(c: char) -> bool {
    let u = c as u32;
    (48 <= u <= 57) || (97 <= u <= 102)
}

/// The text of a 32-byte digest: exactly 64 lowercase hex digits.
pub open spec fn is_digest_hex(s: Seq<char>) -> bool {
    s.len() == 64 && forall|i: int| 0 <= i < 64 ==> is_lower_hex_digit(#[trigger] s[i])
}

/// The signature check on the fields of a response: the public key and the
/// signature must decode to 32 and 64 bytes and the key to a curve point; then the
/// A-hash and B-hash must be digest text (64 lowercase hex digits), so that the
/// signed text fixes where the Wax ends; then Ed25519 must accept the signature.
pub open spec fn signature_verdict(
    wax: Seq<char>,
    a: Seq<char>,
    b: Seq<char>,
    sig: Seq<char>,
    pk: Seq<char>,
    result: Seq<char>,
) -> Result<(), VerifyFailure> {
    let msg = seal_message(wax, a, b, result);
    match hex_decode_spec(encode_utf8(pk)) {
        Err(e) => Err(VerifyFailure::PubKeyHex(e)),
        Ok(pkb) => if pkb.len() != 32 {
            Err(VerifyFailure::PubKeyLength)
        } else if !ed25519_key_decodes(pkb) {
            Err(VerifyFailure::PubKeyFormat)
        } else {
            match hex_decode_spec(encode_utf8(sig)) {
                Err(e) => Err(VerifyFailure::SignatureHex(e)),
                Ok(sb) => if sb.len() != 64 {
                    Err(VerifyFailure::SignatureLength)
                } else if !is_digest_hex(a) {
                    Err(VerifyFailure::AHashFormat)
                } else if !is_digest_hex(b) {
                    Err(VerifyFailure::BHashFormat)
                } else if !ed25519_accepts(pkb, msg, sb) {
                    Err(VerifyFailure::SignatureRejected)
                } else {
                    Ok(())
                },
            }
        },
    }
}

/// The binding check: the reported B-hash must be the B-hash of the result under
/// the reported A-hash and the Wax.
pub open spec fn binding_verdict(
    wax: Seq<char>,
    a: Seq<char>,
    b: Seq<char>,
    result: Seq<char>,
) -> Result<(), VerifyFailure> {
    match hex_decode_spec(encode_utf8(a)) {
        Err(_) => Err(VerifyFailure::AHashFormat),
        Ok(ab) => if b != hex_lower(b_hash_spec(ab, wax, encode_utf8(result))) {
            Err(VerifyFailure::BindingMismatch)
        } else {
            Ok(())
        },
    }
}

/// The identity check: the reported A-hash must be the A-hash of the expected root hash.
pub open spec fn identity_verdict(
    a: Seq<char>,
    wax: Seq<char>,
    expected: Option<Seq<char>>,
) -> Result<(), VerifyFailure> {
    match expected {
        None => Ok(()),
        Some(exp) => match hex_decode_spec(encode_utf8(root_hex_part(exp))) {
            Err(e) => Err(VerifyFailure::RootHashHex(e)),
            Ok(root) => if root.len() != 32 {
                Err(VerifyFailure::RootHashLength)
            } else if hex_lower(a_hash_spec(root, wax)) != a {
                Err(VerifyFailure::IdentityMismatch {
                    computed: hex_lower(a_hash_spec(root, wax)),
                    reported: a,
                })
            } else {
                Ok(())
            },
        },
    }
}

/// The whole verdict on a response: fields present in the order `openseal`,
/// `result`, `a_hash`, `b_hash`, `signature`, `pub_key`; then the signature; then
/// the B-hash binding of the result; then, if a root hash is expected, the identity.
pub open spec fn seal_verdict(
    resp: SealedResponseView,
    wax: Seq<char>,
    expected: Option<Seq<char>>,
) -> Result<(), VerifyFailure> {
    match resp.openseal {
        None => Err(VerifyFailure::MissingOpenseal),
        Some(f) => match resp.result {
            None => Err(VerifyFailure::MissingResult),
            Some(r) => match f.a_hash {
                None => Err(VerifyFailure::MissingAHash),
                Some(a) => match f.b_hash {
                    None => Err(VerifyFailure::MissingBHash),
                    Some(b) => match f.signature {
                        None => Err(VerifyFailure::MissingSignature),
                        Some(sig) => match f.pub_key {
                            None => Err(VerifyFailure::MissingPubKey),
                            Some(pk) => match signature_verdict(wax, a, b, sig, pk, r) {
                                Err(e) => Err(e),
                                Ok(()) => match binding_verdict(wax, a, b, r) {
                                    Err(e) => Err(e),
                                    Ok(()) => identity_verdict(a, wax, expected),
                                },
                            },
                        },
                    },
                },
            },
        },
    }
}

/// A response the verifier accepts carries all seal fields and a result, its
/// B-hash is the binding of the result under the A-hash and the Wax, its
/// public key and signature decode from hex (32 and 64 bytes), and the signature
/// is accepted on exactly Wax, A-hash, B-hash and the digest of the result, in that
/// order. When a root hash was expected, the reported A-hash is the hex of the
/// BLAKE3 digest of that root hash followed by the Wax.
pub proof fn lemma_accepted_response(
    resp: SealedResponseView,
    wax: Seq<char>,
    expected: Option<Seq<char>>,
)
    requires
        seal_verdict(resp, wax, expected) is Ok,
    ensures
        resp.openseal is Some,
        resp.result is Some,
        ({
            let f = resp.openseal->0;
            &&& f.a_hash is Some
            &&& f.b_hash is Some
            &&& f.signature is Some
            &&& f.pub_key is Some
            &&& is_digest_hex(f.a_hash->0)
            &&& is_digest_hex(f.b_hash->0)
            &&& hex_decode_spec(encode_utf8(f.a_hash->0)) is Ok
            &&& f.b_hash->0 == hex_lower(
                b_hash_spec(
                    hex_decode_spec(encode_utf8(f.a_hash->0))->Ok_0,
                    wax,
                    encode_utf8(resp.result->0),
                ),
            )
            &&& hex_decode_spec(encode_utf8(f.pub_key->0)) is Ok
            &&& hex_decode_spec(encode_utf8(f.signature->0)) is Ok
            &&& hex_decode_spec(encode_utf8(f.pub_key->0))->Ok_0.len() == 32
            &&& hex_decode_spec(encode_utf8(f.signature->0))->Ok_0.len() == 64
            &&& ed25519_accepts(
                hex_decode_spec(encode_utf8(f.pub_key->0))->Ok_0,
                seal_message(wax, f.a_hash->0, f.b_hash->0, resp.result->0),
                hex_decode_spec(encode_utf8(f.signature->0))->Ok_0,
            )
        }),
        expected matches Some(exp) ==> ({
            let root = hex_decode_spec(encode_utf8(root_hex_part(exp)));
            &&& root is Ok
            &&& root->Ok_0.len() == 32
            &&& resp.openseal->0.a_hash->0 == hex_lower(a_hash_spec(root->Ok_0, wax))
        }),
{
}

/// The signed text fixes its parts: when two signed texts are equal and their
/// A-hash, B-hash and result digests are digest text, they were made with the same
/// Wax, the same A-hash and B-hash, and results with the same digest. So a
/// signature made for one Wax never serves another.
pub proof fn lemma_seal_message_fixes_wax(
    w1: Seq<char>,
    a1: Seq<char>,
    b1: Seq<char>,
    r1: Seq<char>,
    w2: Seq<char>,
    a2: Seq<char>,
    b2: Seq<char>,
    r2: Seq<char>,
)
    requires
        is_digest_hex(a1),
        is_digest_hex(b1),
        is_digest_hex(a2),
        is_digest_hex(b2),
        blake3_digest(encode_utf8(r1)).len() == 32,
        blake3_digest(encode_utf8(r2)).len() == 32,
        seal_message(w1, a1, b1, r1) == seal_message(w2, a2, b2, r2),
    ensures
        w1 == w2,
        a1 == a2,
        b1 == b2,
        result_digest_hex(r1) == result_digest_hex(r2),
{
    let d1 = result_digest_hex(r1);
    let d2 = result_digest_hex(r2);
    let t1 = w1 + a1 + b1 + d1;
    let t2 = w2 + a2 + b2 + d2;
    encode_utf8_decode_utf8(t1);
    encode_utf8_decode_utf8(t2);
    assert(t1 == t2);
    assert(d1.len() == 64);
    assert(d2.len() == 64);
    assert(w1.len() == w2.len());
    let n = w1.len() as int;
    assert(w1 =~= t1.subrange(0, n));
    assert(w2 =~= t2.subrange(0, n));
    assert(a1 =~= t1.subrange(n, n + 64));
    assert(a2 =~= t2.subrange(n, n + 64));
    assert(b1 =~= t1.subrange(n + 64, n + 128));
    assert(b2 =~= t2.subrange(n + 64, n + 128));
    assert(d1 =~= t1.subrange(n + 128, n + 192));
    assert(d2 =~= t2.subrange(n + 128, n + 192));
}

/// Concatenation of two byte sequences.
pub fn concat_bytes(a: &[u8], b: &[u8]) -> (res: Vec<u8>)
    ensures
        res@ == a@ + b@,
{
    let mut out: Vec<u8> = Vec::new();
    for i in 0..a.len()
        invariant
            out@ == a@.subrange(0, i as int),
    {
        out.push(a[i]);
    }
    for j in 0..b.len()
        invariant
            out@ == a@ + b@.subrange(0, j as int),
    {
        out.push(b[j]);
    }
    assert(a@.subrange(0, a@.len() as int) == a@);
    assert(b@.subrange(0, b@.len() as int) == b@);
    out
}

/// The A-hash: BLAKE3 of the 32 root hash bytes followed by the Wax's bytes.
pub fn compute_a_hash(root: &[u8], wax: &str) -> (res: [u8; 32])
    requires
        root@.len() == 32,
    ensures
        res@ == a_hash_spec(root@, wax@),
        res@ == blake3_digest(root@ + wax.spec_bytes()),
{
    let data = concat_bytes(root, wax.as_bytes());
    blake3_hash(data.as_slice())
}

/// Lowercase hex of the BLAKE3 digest of the result text.
pub fn result_digest(result: &str) -> (res: String)
    ensures
        res@ == result_digest_hex(result@),
{
    let digest = blake3_hash(result.as_bytes());
    blake3_hex(&digest)
}

/// The text that is signed: Wax, A-hash hex, B-hash hex and result digest hex.
pub fn signed_text(wax: &str, a_hex: &str, b_hex: &str, result: &str) -> (res: String)
    ensures
        res@ == wax@ + a_hex@ + b_hex@ + result_digest_hex(result@),
{
    let digest_hex = result_digest(result);
    let mut text = String::from_str(wax);
    text.append(a_hex);
    text.append(b_hex);
    text.append(digest_hex.as_str());
    text
}

/// Whether text begins with `sha256:`.
pub fn starts_with_sha256(s: &str) -> (res: bool)
    ensures
        res == has_sha256_prefix(s@),
{
    let n = s.unicode_len();
    if n < 7 {
        return false;
    }
    let ok = s.get_char(0) == 's' && s.get_char(1) == 'h' && s.get_char(2) == 'a' && s.get_char(
        3,
    ) == '2' && s.get_char(4) == '5' && s.get_char(5) == '6' && s.get_char(6) == ':';
    proof {
        if ok {
            assert(s@.subrange(0, 7) =~= sha256_prefix());
        } else {
            if s@.subrange(0, 7) == sha256_prefix() {
                assert(s@.subrange(0, 7)[0] == 's');
                assert(s@.subrange(0, 7)[1] == 'h');
                assert(s@.subrange(0, 7)[2] == 'a');
                assert(s@.subrange(0, 7)[3] == '2');
                assert(s@.subrange(0, 7)[4] == '5');
                assert(s@.subrange(0, 7)[5] == '6');
                assert(s@.subrange(0, 7)[6] == ':');
            }
        }
    }
    ok
}

/// Whether text is exactly 64 lowercase hex digits.
pub fn is_digest_text(s: &str) -> (res: bool)
    ensures
        res == is_digest_hex(s@),
{
    if s.unicode_len() != 64 {
        return false;
    }
    for i in 0..64
        invariant
            s@.len() == 64,
            forall|k: int| 0 <= k < i ==> is_lower_hex_digit(#[trigger] s@[k]),
    {
        let u = s.get_char(i) as u32;
        if !((48 <= u && u <= 57) || (97 <= u && u <= 102)) {
            assert(!is_lower_hex_digit(s@[i as int]));
            return false;
        }
    }
    true
}

fn check_signature(
    wax: &str,
    a: &str,
    b: &str,
    sig: &str,
    pk: &str,
    result: &str,
) -> (res: Result<(), VerifyError>)
    ensures
        verdict_view(res) == signature_verdict(wax@, a@, b@, sig@, pk@, result@),
{
    let message = signed_text(wax, a, b, result);
    let msg = message.as_str().as_bytes();
    let pkb = match hex_decode(pk) {
        Err(e) => return Err(VerifyError::PubKeyHex(e)),
        Ok(v) => v,
    };
    if pkb.len() != 32 {
        return Err(VerifyError::PubKeyLength);
    }
    if !ed25519_key_is_valid(pkb.as_slice()) {
        return Err(VerifyError::PubKeyFormat);
    }
    let sb = match hex_decode(sig) {
        Err(e) => return Err(VerifyError::SignatureHex(e)),
        Ok(v) => v,
    };
    if sb.len() != 64 {
        return Err(VerifyError::SignatureLength);
    }
    if !is_digest_text(a) {
        return Err(VerifyError::AHashFormat);
    }
    if !is_digest_text(b) {
        return Err(VerifyError::BHashFormat);
    }
    if !ed25519_verify(pkb.as_slice(), msg, sb.as_slice()) {
        return Err(VerifyError::SignatureRejected);
    }
    Ok(())
}

fn check_binding(wax: &str, a: &str, b: &str, result: &str) -> (res: Result<(), VerifyError>)
    ensures
        verdict_view(res) == binding_verdict(wax@, a@, b@, result@),
{
    let ab = match hex_decode(a) {
        Err(_) => return Err(VerifyError::AHashFormat),
        Ok(v) => v,
    };
    let expected = compute_b_hash(ab.as_slice(), wax, result.as_bytes());
    let expected_hex = hex_encode(&expected);
    if expected_hex != String::from_str(b) {
        return Err(VerifyError::BindingMismatch);
    }
    Ok(())
}

fn check_identity(a: &str, wax: &str, expected: Option<&str>) -> (res: Result<(), VerifyError>)
    ensures
        verdict_view(res) == identity_verdict(
            a@,
            wax@,
            match expected {
                Some(e) => Some(e@),
                None => None,
            },
        ),
{
    match expected {
        None => Ok(()),
        Some(exp) => {
            let hex_part = if starts_with_sha256(exp) {
                exp.substring_char(7, exp.unicode_len())
            } else {
                exp
            };
            let root = match hex_decode(hex_part) {
                Err(e) => return Err(VerifyError::RootHashHex(e)),
                Ok(v) => v,
            };
            if root.len() != 32 {
                return Err(VerifyError::RootHashLength);
            }
            let computed = compute_a_hash(root.as_slice(), wax);
            let computed_hex = hex_encode(&computed);
            let reported = String::from_str(a);
            if computed_hex != reported {
                return Err(VerifyError::IdentityMismatch { computed: computed_hex, reported });
            }
            Ok(())
        },
    }
}

/// Verifies a sealed response against the Wax of its request and, optionally, an
/// expected root hash (hex, with or without a `sha256:` prefix). The outcome is
/// exactly `seal_verdict`.
pub fn verify_seal(response: &SealedResponse, wax: &str, expected_root: Option<&str>) -> (res:
    Result<(), VerifyError>)
    ensures
        verdict_view(res) == seal_verdict(
            response@,
            wax@,
            match expected_root {
                Some(e) => Some(e@),
                None => None,
            },
        ),
{
    let fields = match &response.openseal {
        None => return Err(VerifyError::MissingOpenseal),
        Some(f) => f,
    };
    let result = match &response.result {
        None => return Err(VerifyError::MissingResult),
        Some(r) => r,
    };
    let a = match &fields.a_hash {
        None => return Err(VerifyError::MissingAHash),
        Some(a) => a,
    };
    let b = match &fields.b_hash {
        None => return Err(VerifyError::MissingBHash),
        Some(b) => b,
    };
    let sig = match &fields.signature {
        None => return Err(VerifyError::MissingSignature),
        Some(s) => s,
    };
    let pk = match &fields.pub_key {
        None => return Err(VerifyError::MissingPubKey),
        Some(p) => p,
    };
    match check_signature(wax, a.as_str(), b.as_str(), sig.as_str(), pk.as_str(), result.as_str()) {
        Err(e) => return Err(e),
        Ok(()) => {},
    }
    match check_binding(wax, a.as_str(), b.as_str(), result.as_str()) {
        Err(e) => return Err(e),
        Ok(()) => {},
    }
    check_identity(a.as_str(), wax, expected_root)
}

} // verus!
