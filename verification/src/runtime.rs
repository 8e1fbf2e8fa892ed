//! Decisions of the sealing proxy: start-up integrity, the Wax of a request, the
//! forwarded URI, the sealed response and the identity endpoint.
use vstd::prelude::*;
use crate::hex_text::{hex_encode, hex_lower};
use crate::json_text::{standard_result_text, standardize_result};
use crate::primitives::blake3_hex;
use crate::seal::{is_seal_of, passes_verification, seal_result, Seal};

verus! {

/// A manifest entry that is a byte: an unsigned integer no greater than 255.
pub open spec fn is_byte_entry(e: Option<u64>) -> bool {
    e matches Some(n) && n <= 255
}

/// The bytes a manifest's `identity.root_hash` array declares, when every entry is
/// a byte; `None` when some entry is not an integer in 0..=255.
pub open spec fn declared_root_bytes(values: Seq<Option<u64>>) -> Option<Seq<u8>> {
    if forall|i: int| 0 <= i < values.len() ==> is_byte_entry(#[trigger] values[i]) {
        Some(Seq::new(values.len(), |i: int| values[i]->0 as u8))
    } else {
        None
    }
}

/// The declared root hash bytes of a manifest's `identity.root_hash` array, exactly
/// `declared_root_bytes`.
pub fn expected_root_bytes(values: &Vec<Option<u64>>) -> (res: Option<Vec<u8>>)
    ensures
        match res {
            Some(v) => declared_root_bytes(values@) == Some(v@),
            None => declared_root_bytes(values@) is None,
        },
{
    let mut out: Vec<u8> = Vec::new();
    for i in 0..values.len()
        invariant
            out@.len() == i,
            forall|k: int| 0 <= k < i ==> is_byte_entry(#[trigger] values@[k]),
            forall|k: int| 0 <= k < i ==> #[trigger] out@[k] == values@[k]->0 as u8,
    {
        match values[i] {
            Some(n) => {
                if n > 255 {
                    assert(!is_byte_entry(values@[i as int]));
                    return None;
                }
                out.push(n as u8);
            },
            None => {
                assert(!is_byte_entry(values@[i as int]));
                return None;
            },
        }
    }
    assert(out@ =~= Seq::new(values@.len(), |i: int| values@[i]->0 as u8));
    Some(out)
}

/// A declaration is a list of bytes exactly when every entry is an integer from 0
/// to 255; its bytes are then the entries, in order.
pub proof fn lemma_declared_bytes_are_the_entries(values: Seq<Option<u64>>)
    ensures
        declared_root_bytes(values) is Some <==> forall|i: int|
            0 <= i < values.len() ==> (#[trigger] values[i] matches Some(n) && n < 256),
        declared_root_bytes(values) matches Some(b) ==> b.len() == values.len() && forall|i: int|
            0 <= i < values.len() ==> #[trigger] b[i] as u64 == values[i]->0,
{
    if declared_root_bytes(values) is Some {
        assert forall|i: int| 0 <= i < values.len() implies (#[trigger] values[i] matches Some(
            n,
        ) && n < 256) by {
            assert(is_byte_entry(values[i]));
        }
    }
    if forall|i: int| 0 <= i < values.len() ==> (#[trigger] values[i] matches Some(n) && n < 256) {
        assert forall|i: int| 0 <= i < values.len() implies is_byte_entry(#[trigger] values[i]) by {
            assert(values[i] matches Some(n) && n < 256);
        }
    }
}

/// Any root hash written out as its bytes, each as an integer, is declared as
/// exactly that root hash: a manifest that declares the live root hash passes.
pub proof fn lemma_live_root_declared(live: Seq<u8>)
    ensures
        declared_root_bytes(Seq::new(live.len(), |i: int| Some(live[i] as u64))) == Some(live),
{
    let v = Seq::new(live.len(), |i: int| Some(live[i] as u64));
    assert forall|i: int| 0 <= i < v.len() implies is_byte_entry(#[trigger] v[i]) by {}
    let b = declared_root_bytes(v)->0;
    assert(b =~= live);
}

/// What a manifest says of the root hash.
#[derive(Clone, Debug, PartialEq, Eq)]
pub enum RootDeclaration {
    /// The manifest has no `identity.root_hash`.
    Absent,
    /// `identity.root_hash` is an array; an entry is `None` where it is not an
    /// unsigned integer.
    Entries(Vec<Option<u64>>),
    /// `identity.root_hash` is present but not an array.
    Other,
}

/// Byte-wise equality of two byte sequences.
pub fn bytes_equal(a: &[u8], b: &[u8]) -> (res: bool)
    ensures
        res == (a@ == b@),
{
    if a.len() != b.len() {
        return false;
    }
    for i in 0..a.len()
        invariant
            a@.len() == b@.len(),
            forall|k: int| 0 <= k < i ==> a@[k] == b@[k],
    {
        if a[i] != b[i] {
            return false;
        }
    }
    assert(a@ =~= b@);
    true
}

/// How the start-up integrity check ended when the runtime may start.
#[derive(Clone, Copy, Debug, PartialEq, Eq, Structural)]
pub enum IntegrityStatus {
    /// The manifest declares a root hash and it equals the live one.
    Verified,
    /// The manifest declares no root hash; nothing was compared.
    NotDeclared,
}

/// A modified bundle: the declared root hash as lowercase hex (when it is a list of
/// bytes) and the live one.
#[derive(Clone, Debug, PartialEq, Eq)]
pub struct IntegrityViolation {
    pub expected_hex: Option<String>,
    pub actual_hex: String,
}

/// The start-up integrity check. The runtime may start when the manifest declares
/// no root hash, or when it declares exactly the live root hash as a list of 32
/// bytes (integers 0..=255). Any other declaration, including one that is not a
/// list, is a violation; it reports the declared bytes as hex when the declaration
/// is a list of bytes, and the live root hash.
pub fn check_integrity(live_root: &[u8; 32], declared: &RootDeclaration) -> (res: Result<
    IntegrityStatus,
    IntegrityViolation,
>)
    ensures
        match declared {
            RootDeclaration::Absent => res == Ok::<IntegrityStatus, IntegrityViolation>(
                IntegrityStatus::NotDeclared,
            ),
            RootDeclaration::Entries(values) => match res {
                Ok(s) => s == IntegrityStatus::Verified && declared_root_bytes(values@) == Some(
                    live_root@,
                ),
                Err(v) => declared_root_bytes(values@) != Some(live_root@) && v.actual_hex@
                    == hex_lower(live_root@) && match declared_root_bytes(values@) {
                    Some(bytes) => v.expected_hex matches Some(e) && e@ == hex_lower(bytes),
                    None => v.expected_hex is None,
                },
            },
            RootDeclaration::Other => res matches Err(v) && v.expected_hex is None
                && v.actual_hex@ == hex_lower(live_root@),
        },
{
    match declared {
        RootDeclaration::Absent => Ok(IntegrityStatus::NotDeclared),
        RootDeclaration::Other => Err(
            IntegrityViolation { expected_hex: None, actual_hex: blake3_hex(live_root) },
        ),
        RootDeclaration::Entries(values) => match expected_root_bytes(values) {
            None => Err(
                IntegrityViolation { expected_hex: None, actual_hex: blake3_hex(live_root) },
            ),
            Some(expected) => {
                if bytes_equal(live_root, expected.as_slice()) {
                    Ok(IntegrityStatus::Verified)
                } else {
                    Err(
                        IntegrityViolation {
                            expected_hex: Some(hex_encode(expected.as_slice())),
                            actual_hex: blake3_hex(live_root),
                        },
                    )
                }
            },
        },
    }
}

/// Why a request carries no usable Wax; either way it is answered as a bad request.
#[derive(Clone, Copy, Debug, PartialEq, Eq, Structural)]
pub enum WaxError {
    /// The `X-OpenSeal-Wax` header is absent.
    Missing,
    /// The header's value is not visible ASCII text, so it cannot be bound as sent.
    NotText,
}

/// The Wax of a request from its `X-OpenSeal-Wax` header: the header text, exactly
/// as sent. An absent header, or one whose value is not visible ASCII text
/// (`header` is `Some(None)`), gives no Wax: the response is never sealed over a
/// Wax other than the client's.
pub fn wax_from_header(header: Option<Option<String>>) -> (res: Result<String, WaxError>)
    ensures
        match header {
            None => res == Err::<String, WaxError>(WaxError::Missing),
            Some(None) => res == Err::<String, WaxError>(WaxError::NotText),
            Some(Some(text)) => res matches Ok(w) && w@ == text@,
        },
{
    match header {
        None => Err(WaxError::Missing),
        Some(None) => Err(WaxError::NotText),
        Some(Some(text)) => Ok(text),
    }
}

/// The URI a request is forwarded to: the target URL, the request path, and, when
/// the request has a query, `?` and the query.
pub fn target_uri(target_url: &str, path: &str, query: Option<&str>) -> (res: String)
    ensures
        res@ == target_url@ + path@ + match query {
            Some(q) => seq!['?'] + q@,
            None => Seq::<char>::empty(),
        },
{
    let mut uri = String::from_str(target_url);
    uri.append(path);
    match query {
        Some(q) => {
            let mark = "?";
            proof {
                reveal_strlit("?");
            }
            uri.append(mark);
            uri.append(q);
            proof {
                assert(uri@ =~= target_url@ + path@ + (seq!['?'] + q@));
            }
        },
        None => {
            proof {
                assert(uri@ =~= target_url@ + path@ + Seq::<char>::empty());
            }
        },
    }
    uri
}

/// A sealed response: the standard result text and its seal.
#[derive(Clone, Debug, PartialEq, Eq)]
pub struct SealedOutput {
    pub result: String,
    pub seal: Seal,
}

/// Seals the body returned by the wrapped application: the result is the body's
/// standard text, the seal is exactly the seal of that text (see `is_seal_of`), and
/// it passes verification with the request's Wax.
pub fn seal_response(seed: &[u8; 32], root: &[u8; 32], wax: &str, body: &[u8]) -> (res:
    SealedOutput)
    ensures
        res.result@ == standard_result_text(body@),
        is_seal_of(res.seal, seed@, root@, wax@, res.result@),
        passes_verification(res.seal, root@, wax@, res.result@),
{
    let result = standardize_result(body);
    let seal = seal_result(seed, root, wax, result.as_str());
    SealedOutput { result, seal }
}

/// What the public identity endpoint reports.
#[derive(Clone, Debug, PartialEq, Eq)]
pub struct IdentitySummary {
    /// The root hash as lowercase hex.
    pub a_hash: String,
    pub file_count: u64,
}

/// The identity endpoint's report: the root hash as lowercase hex, and the file count.
pub fn identity_summary(root: &[u8; 32], file_count: u64) -> (res: IdentitySummary)
    ensures
        res.a_hash@ == hex_lower(root@),
        res.file_count == file_count,
{
    IdentitySummary { a_hash: blake3_hex(root), file_count }
}

} // verus!
