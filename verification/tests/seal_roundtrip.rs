use openseal::hex_text::HexError;
use openseal::runtime::{seal_response, SealedOutput};
use openseal::seal::{compute_b_hash, public_key_hex, seal_result, Seal};
use openseal::verify::{
    compute_a_hash, is_digest_text, result_digest, signed_text, verify_seal, SealFields,
    SealedResponse, VerifyError,
};

const RFC_SEED: &str = "9d61b19deffd5a60ba844af492ec2cc44449c5697b326919703bac031cae7f60";
const RFC_PUBLIC: &str = "d75a980182b10ab7d54bfed3c964073a0ee172f3daa62325af021a68f707511a";

fn seed() -> [u8; 32] {
    hex::decode(RFC_SEED).unwrap().try_into().unwrap()
}

fn root() -> [u8; 32] {
    let mut r = [0u8; 32];
    for (i, b) in r.iter_mut().enumerate() {
        *b = (i as u8) * 7 + 1;
    }
    r
}

fn response_of(seal: &Seal, result: &str) -> SealedResponse {
    SealedResponse {
        openseal: Some(SealFields {
            a_hash: Some(seal.a_hash.clone()),
            b_hash: Some(seal.b_hash.clone()),
            signature: Some(seal.signature.clone()),
            pub_key: Some(seal.pub_key.clone()),
        }),
        result: Some(result.to_string()),
    }
}

fn sealed_price() -> SealedOutput {
    seal_response(&seed(), &root(), "prove-it", br#"{"symbol":"BTC","price":"89553.03"}"#)
}

#[test]
fn sealed_response_verifies_with_its_wax() {
    let out = sealed_price();
    assert_eq!(out.result, r#"{"price":"89553.03","symbol":"BTC"}"#);
    let resp = response_of(&out.seal, &out.result);
    assert_eq!(verify_seal(&resp, "prove-it", None), Ok(()));
    let root_hex = hex::encode(root());
    assert_eq!(verify_seal(&resp, "prove-it", Some(&root_hex)), Ok(()));
    let pinned = format!("sha256:{}", root_hex);
    assert_eq!(verify_seal(&resp, "prove-it", Some(&pinned)), Ok(()));
}

#[test]
fn seal_fields_are_the_documented_hashes() {
    let wax = "test123";
    let result = r#"{"a":1}"#;
    let seal = seal_result(&seed(), &root(), wax, result);

    let mut a_input = root().to_vec();
    a_input.extend_from_slice(wax.as_bytes());
    let a = blake3::hash(&a_input);
    assert_eq!(seal.a_hash, a.to_hex().to_string());

    let mut key_input = a.as_bytes().to_vec();
    key_input.extend_from_slice(wax.as_bytes());
    let key = blake3::hash(&key_input);
    let b = blake3::keyed_hash(key.as_bytes(), result.as_bytes());
    assert_eq!(seal.b_hash, b.to_hex().to_string());

    assert_eq!(seal.pub_key, RFC_PUBLIC);

    let digest = blake3::hash(result.as_bytes()).to_hex().to_string();
    let message = format!("{}{}{}{}", wax, seal.a_hash, seal.b_hash, digest);
    let vk = ed25519_dalek::VerifyingKey::from_bytes(
        &hex::decode(RFC_PUBLIC).unwrap().try_into().unwrap(),
    )
    .unwrap();
    let sig_bytes: [u8; 64] = hex::decode(&seal.signature).unwrap().try_into().unwrap();
    let sig = ed25519_dalek::Signature::from_bytes(&sig_bytes);
    assert!(ed25519_dalek::Verifier::verify(&vk, message.as_bytes(), &sig).is_ok());
}

#[test]
fn public_key_is_rfc8032_key() {
    assert_eq!(public_key_hex(&seed()), RFC_PUBLIC);
}

#[test]
fn a_hash_is_blake3_of_root_and_wax() {
    let mut input = root().to_vec();
    input.extend_from_slice("w\u{e9}".as_bytes());
    assert_eq!(compute_a_hash(&root(), "w\u{e9}"), *blake3::hash(&input).as_bytes());
    assert_ne!(compute_a_hash(&root(), "x"), compute_a_hash(&root(), "y"));
}

#[test]
fn b_hash_depends_on_result() {
    let a = compute_a_hash(&root(), "w");
    assert_ne!(compute_b_hash(&a, "w", b"1"), compute_b_hash(&a, "w", b"2"));
}

#[test]
fn result_digest_is_blake3_hex() {
    assert_eq!(
        result_digest("abc"),
        "6437b3ac38465133ffb63b75273a8db548c558465d79db03fd359c6cd5bd9d85"
    );
    assert_eq!(
        result_digest(""),
        "af1349b9f5f9a1a6a0404dea36dcc9499bcb25c9adc112b7cc9a93cae41f3262"
    );
}

#[test]
fn signed_text_concatenates_in_order() {
    let t = signed_text("W", "A", "B", "abc");
    assert_eq!(t, "WAB6437b3ac38465133ffb63b75273a8db548c558465d79db03fd359c6cd5bd9d85");
}

#[test]
fn tampered_result_is_rejected() {
    let out = sealed_price();
    let resp = response_of(&out.seal, r#"{"price":"1","symbol":"BTC"}"#);
    assert_eq!(verify_seal(&resp, "prove-it", None), Err(VerifyError::SignatureRejected));
}

#[test]
fn replayed_with_other_wax_is_rejected() {
    let out = sealed_price();
    let resp = response_of(&out.seal, &out.result);
    assert_eq!(verify_seal(&resp, "other", None), Err(VerifyError::SignatureRejected));
}

#[test]
fn tampered_a_hash_is_rejected() {
    let out = sealed_price();
    let mut resp = response_of(&out.seal, &out.result);
    let other = seal_result(&seed(), &[9u8; 32], "prove-it", &out.result);
    resp.openseal.as_mut().unwrap().a_hash = Some(other.a_hash);
    assert_eq!(verify_seal(&resp, "prove-it", None), Err(VerifyError::SignatureRejected));
}

#[test]
fn other_root_is_identity_mismatch() {
    let out = sealed_price();
    let resp = response_of(&out.seal, &out.result);
    let other_root = hex::encode([9u8; 32]);
    let expected = seal_result(&seed(), &[9u8; 32], "prove-it", &out.result).a_hash;
    assert_eq!(
        verify_seal(&resp, "prove-it", Some(&other_root)),
        Err(VerifyError::IdentityMismatch { computed: expected, reported: out.seal.a_hash.clone() })
    );
}

#[test]
fn missing_fields_are_reported_in_order() {
    let out = sealed_price();
    let full = response_of(&out.seal, &out.result);

    let mut r = full.clone();
    r.openseal = None;
    r.result = None;
    assert_eq!(verify_seal(&r, "prove-it", None), Err(VerifyError::MissingOpenseal));

    let mut r = full.clone();
    r.result = None;
    r.openseal.as_mut().unwrap().a_hash = None;
    assert_eq!(verify_seal(&r, "prove-it", None), Err(VerifyError::MissingResult));

    let mut r = full.clone();
    r.openseal.as_mut().unwrap().a_hash = None;
    r.openseal.as_mut().unwrap().pub_key = None;
    assert_eq!(verify_seal(&r, "prove-it", None), Err(VerifyError::MissingAHash));

    let mut r = full.clone();
    r.openseal.as_mut().unwrap().b_hash = None;
    assert_eq!(verify_seal(&r, "prove-it", None), Err(VerifyError::MissingBHash));

    let mut r = full.clone();
    r.openseal.as_mut().unwrap().signature = None;
    assert_eq!(verify_seal(&r, "prove-it", None), Err(VerifyError::MissingSignature));

    let mut r = full.clone();
    r.openseal.as_mut().unwrap().pub_key = None;
    assert_eq!(verify_seal(&r, "prove-it", None), Err(VerifyError::MissingPubKey));
}

fn with_key(pk: &str) -> SealedResponse {
    let out = sealed_price();
    let mut r = response_of(&out.seal, &out.result);
    r.openseal.as_mut().unwrap().pub_key = Some(pk.to_string());
    r
}

fn with_signature(sig: &str) -> SealedResponse {
    let out = sealed_price();
    let mut r = response_of(&out.seal, &out.result);
    r.openseal.as_mut().unwrap().signature = Some(sig.to_string());
    r
}

#[test]
fn public_key_errors() {
    assert_eq!(
        verify_seal(&with_key("abc"), "prove-it", None),
        Err(VerifyError::PubKeyHex(HexError::OddLength))
    );
    assert_eq!(
        verify_seal(&with_key("0g"), "prove-it", None),
        Err(VerifyError::PubKeyHex(HexError::InvalidHexCharacter { c: 'g', index: 1 }))
    );
    assert_eq!(verify_seal(&with_key("00ff"), "prove-it", None), Err(VerifyError::PubKeyLength));
    let not_a_point = format!("02{}", "00".repeat(31));
    assert_eq!(
        verify_seal(&with_key(&not_a_point), "prove-it", None),
        Err(VerifyError::PubKeyFormat)
    );
}

#[test]
fn signature_errors() {
    assert_eq!(
        verify_seal(&with_signature("x"), "prove-it", None),
        Err(VerifyError::SignatureHex(HexError::OddLength))
    );
    assert_eq!(
        verify_seal(&with_signature(&"ab".repeat(32)), "prove-it", None),
        Err(VerifyError::SignatureLength)
    );
    assert_eq!(
        verify_seal(&with_signature(&"00".repeat(64)), "prove-it", None),
        Err(VerifyError::SignatureRejected)
    );
}

#[test]
fn root_hash_errors() {
    let out = sealed_price();
    let r = response_of(&out.seal, &out.result);
    assert_eq!(
        verify_seal(&r, "prove-it", Some("sha256:xyz1")),
        Err(VerifyError::RootHashHex(HexError::InvalidHexCharacter { c: 'x', index: 0 }))
    );
    assert_eq!(
        verify_seal(&r, "prove-it", Some("sha256:abcd")),
        Err(VerifyError::RootHashLength)
    );
    assert_eq!(verify_seal(&r, "prove-it", Some("")), Err(VerifyError::RootHashLength));
}

#[test]
fn signature_is_checked_before_identity() {
    let out = sealed_price();
    let r = response_of(&out.seal, &out.result);
    assert_eq!(
        verify_seal(&r, "other", Some("not hex")),
        Err(VerifyError::SignatureRejected)
    );
}

#[test]
fn shifted_wax_replay_is_rejected() {
    let out = sealed_price();
    let mut resp = response_of(&out.seal, &out.result);
    let a = out.seal.a_hash.clone();
    resp.openseal.as_mut().unwrap().a_hash = Some(a[1..].to_string());
    let shifted_wax = format!("prove-it{}", &a[..1]);
    assert_eq!(verify_seal(&resp, &shifted_wax, None), Err(VerifyError::AHashFormat));
}

#[test]
fn seal_hashes_must_be_digest_text() {
    let out = sealed_price();
    let full = response_of(&out.seal, &out.result);

    let mut r = full.clone();
    r.openseal.as_mut().unwrap().a_hash = Some(out.seal.a_hash.to_uppercase());
    assert_eq!(verify_seal(&r, "prove-it", None), Err(VerifyError::AHashFormat));

    let mut r = full.clone();
    r.openseal.as_mut().unwrap().b_hash = Some(format!("{}0", out.seal.b_hash));
    assert_eq!(verify_seal(&r, "prove-it", None), Err(VerifyError::BHashFormat));

    let mut r = full.clone();
    r.openseal.as_mut().unwrap().b_hash = Some(out.seal.b_hash[2..].to_string());
    assert_eq!(verify_seal(&r, "prove-it", None), Err(VerifyError::BHashFormat));
}

#[test]
fn digest_text_rules() {
    assert!(is_digest_text(&"0a".repeat(32)));
    assert!(!is_digest_text(&"0A".repeat(32)));
    assert!(!is_digest_text(&"0a".repeat(31)));
    assert!(!is_digest_text(&format!("{}g", "a".repeat(63))));
    assert!(!is_digest_text(""));
}

#[test]
fn key_is_checked_before_hash_format() {
    let r = SealedResponse {
        openseal: Some(SealFields {
            a_hash: Some("aa".to_string()),
            b_hash: Some("bb".to_string()),
            signature: Some("00".to_string()),
            pub_key: Some("00".to_string()),
        }),
        result: Some("1".to_string()),
    };
    assert_eq!(verify_seal(&r, "w", None), Err(VerifyError::PubKeyLength));
}

#[test]
fn signed_but_unbound_b_hash_is_rejected() {
    let wax = "prove-it";
    let result = "1";
    let seal = seal_result(&seed(), &root(), wax, result);
    let forged_b = "0".repeat(64);
    let message = signed_text(wax, &seal.a_hash, &forged_b, result);
    let key = ed25519_dalek::SigningKey::from_bytes(&seed());
    let sig = ed25519_dalek::Signer::sign(&key, message.as_bytes());
    let mut resp = response_of(&seal, result);
    let fields = resp.openseal.as_mut().unwrap();
    fields.b_hash = Some(forged_b);
    fields.signature = Some(hex::encode(sig.to_bytes()));
    assert_eq!(verify_seal(&resp, wax, None), Err(VerifyError::BindingMismatch));
}
