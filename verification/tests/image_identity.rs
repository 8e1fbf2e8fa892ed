use openseal::hex_text::HexError;
use openseal::image::{
    container_run_args, digest_source, image_digest_matches, is_pinned_reference,
    root_hash_from_digest, DigestError, ImageDigest,
};

#[test]
fn pinned_reference_names_its_digest() {
    assert_eq!(
        digest_source("ghcr.io/org/api@sha256:7dab"),
        ImageDigest::Pinned("sha256:7dab".to_string())
    );
    assert_eq!(
        digest_source("a@sha256:1@extra"),
        ImageDigest::Pinned("sha256:1".to_string())
    );
    assert_eq!(digest_source("x@y@sha256:z"), ImageDigest::Pinned("y".to_string()));
}

#[test]
fn tagged_reference_is_local() {
    assert_eq!(digest_source("crypto-oracle:v1"), ImageDigest::Local);
    assert_eq!(digest_source("a@sha256"), ImageDigest::Local);
    assert!(!is_pinned_reference("sha256:abc"));
    assert!(is_pinned_reference("@sha256:"));
}

#[test]
fn digest_gives_root_hash() {
    let hex = "7dabd9a9dd2de714b343b381ee81bbcb3c2bb55b85fecefc3127fd9eafa486b2";
    let root = root_hash_from_digest(&format!("sha256:{}", hex)).unwrap();
    assert_eq!(hex::encode(root), hex);
    let upper = root_hash_from_digest(&format!("sha256:{}", hex.to_uppercase())).unwrap();
    assert_eq!(upper, root);
}

#[test]
fn digest_errors() {
    assert_eq!(root_hash_from_digest("7dab"), Err(DigestError::InvalidFormat));
    assert_eq!(
        root_hash_from_digest("sha256:7da"),
        Err(DigestError::InvalidHex(HexError::OddLength))
    );
    assert_eq!(
        root_hash_from_digest("sha256:7dag"),
        Err(DigestError::InvalidHex(HexError::InvalidHexCharacter { c: 'g', index: 3 }))
    );
    assert_eq!(root_hash_from_digest("sha256:7dab"), Err(DigestError::InvalidLength));
}

#[test]
fn digest_comparison() {
    assert!(image_digest_matches("sha256:ab", "sha256:ab"));
    assert!(!image_digest_matches("sha256:ab", "sha256:AB"));
}

#[test]
fn sandboxed_run_arguments() {
    let args = container_run_args("openseal_runtime_1", "my-api:v1");
    assert_eq!(
        args,
        vec![
            "run", "-d", "--name", "openseal_runtime_1", "--rm", "--read-only",
            "--cap-drop=ALL", "--security-opt=no-new-privileges", "-p", "127.0.0.1:3000:3000",
            "--network=bridge", "my-api:v1",
        ]
    );
}
