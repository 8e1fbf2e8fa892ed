//! Container image identity: the digest a reference pins, the root hash a digest
//! stands for, and the sandboxed `docker run` command line.
use vstd::prelude::*;
use vstd::utf8::*;
use crate::hex_text::{hex_decode, hex_decode_spec, HexError};
use crate::verify::{has_sha256_prefix, starts_with_sha256};

verus! {

/// The marker of a pinned reference: `@sha256:`.
pub open spec fn pin_marker() -> Seq<char> {
    seq!['@', 's', 'h', 'a', '2', '5', '6', ':']
}

/// Whether `@sha256:` occurs at position `i` of `s`.
pub open spec fn marker_at(s: Seq<char>, i: int) -> bool {
    0 <= i && i + 8 <= s.len() && s.subrange(i, i + 8) == pin_marker()
}

/// Whether an image reference is pinned by digest (holds `@sha256:`).
pub open spec fn is_pinned(s: Seq<char>) -> bool {
    exists|i: int| marker_at(s, i)
}

/// The first position at or after `from` that holds `c`, or the length.
pub open spec fn index_of_from(s: Seq<char>, c: char, from: int) -> int
    decreases s.len() - from,
{
    if from < 0 || from >= s.len() {
        s.len() as int
    } else if s[from] == c {
        from
    } else {
        index_of_from(s, c, from + 1)
    }
}

/// The text between the first `@` and the next one (or the end), as
/// `split('@').nth(1)` yields it.
pub open spec fn second_at_segment(s: Seq<char>) -> Seq<char> {
    let p = index_of_from(s, '@', 0);
    s.subrange(p + 1, index_of_from(s, '@', p + 1))
}

/// The digest of a reference with an `@` is the whole text right after its first
/// `@`, up to the next `@` or the end, whatever its length: it holds no `@`, and it
/// is followed by `@` or by nothing.
pub proof fn lemma_second_at_segment(s: Seq<char>, p: int)
    requires
        0 <= p < s.len(),
        s[p] == '@',
        forall|k: int| 0 <= k < p ==> s[k] != '@',
    ensures
        ({
            let d = second_at_segment(s);
            let end = p + 1 + d.len();
            &&& end <= s.len()
            &&& d == s.subrange(p + 1, end)
            &&& forall|k: int| 0 <= k < d.len() ==> #[trigger] d[k] != '@'
            &&& (end == s.len() || s[end] == '@')
        }),
{
    lemma_index_of_from_bounds(s, '@', 0);
    assert(index_of_from(s, '@', 0) == p);
    lemma_index_of_from_bounds(s, '@', p + 1);
    let d = second_at_segment(s);
    assert forall|k: int| 0 <= k < d.len() implies #[trigger] d[k] != '@' by {
        assert(d[k] == s[p + 1 + k]);
    }
}

/// Where the root hash of an image comes from.
#[derive(Clone, Debug, PartialEq, Eq)]
pub enum ImageDigest {
    /// A pinned reference: the digest it names.
    Pinned(String),
    /// A local image: its ID must be looked up.
    Local,
}

proof fn lemma_index_of_from_bounds(s: Seq<char>, c: char, from: int)
    requires
        0 <= from <= s.len(),
    ensures
        from <= index_of_from(s, c, from) <= s.len(),
        index_of_from(s, c, from) < s.len() ==> s[index_of_from(s, c, from)] == c,
        forall|k: int| from <= k < index_of_from(s, c, from) ==> s[k] != c,
    decreases s.len() - from,
{
    if from < s.len() && s[from] != c {
        lemma_index_of_from_bounds(s, c, from + 1);
    }
}

/// Whether `@sha256:` occurs in the text.
pub fn is_pinned_reference(s: &str) -> (res: bool)
    ensures
        res == is_pinned(s@),
{
    let n = s.unicode_len();
    if n < 8 {
        assert(!is_pinned(s@));
        return false;
    }
    let mut i: usize = 0;
    while i <= n - 8
        invariant
            n == s@.len(),
            n >= 8,
            i <= n - 7,
            forall|k: int| 0 <= k < i ==> !marker_at(s@, k),
        decreases n - i,
    {
        let hit = s.get_char(i) == '@' && s.get_char(i + 1) == 's' && s.get_char(i + 2) == 'h'
            && s.get_char(i + 3) == 'a' && s.get_char(i + 4) == '2' && s.get_char(i + 5) == '5'
            && s.get_char(i + 6) == '6' && s.get_char(i + 7) == ':';
        proof {
            let w = s@.subrange(i as int, i + 8);
            if hit {
                assert(w =~= pin_marker());
                assert(marker_at(s@, i as int));
            } else {
                if w == pin_marker() {
                    assert(w[0] == '@' && w[1] == 's' && w[2] == 'h' && w[3] == 'a');
                    assert(w[4] == '2' && w[5] == '5' && w[6] == '6' && w[7] == ':');
                }
            }
        }
        if hit {
            return true;
        }
        i = i + 1;
    }
    proof {
        assert forall|k: int| !marker_at(s@, k) by {
            if 0 <= k < i {
            }
        }
    }
    false
}

fn index_of_char_from(s: &str, c: char, from: usize) -> (res: usize)
    requires
        from <= s@.len(),
    ensures
        res == index_of_from(s@, c, from as int),
{
    let n = s.unicode_len();
    let mut i = from;
    while i < n
        invariant
            n == s@.len(),
            from <= i <= n,
            index_of_from(s@, c, from as int) == index_of_from(s@, c, i as int),
        decreases n - i,
    {
        if s.get_char(i) == c {
            return i;
        }
        i = i + 1;
    }
    i
}

/// Where the root hash of an image reference comes from: a pinned reference names
/// its digest (the text after its first `@`, up to any further `@`); any other
/// reference is a local image.
pub fn digest_source(image: &str) -> (res: ImageDigest)
    ensures
        is_pinned(image@) ==> (res matches ImageDigest::Pinned(d) && d@ == second_at_segment(
            image@,
        )),
        !is_pinned(image@) ==> res is Local,
{
    if !is_pinned_reference(image) {
        return ImageDigest::Local;
    }
    let n = image.unicode_len();
    let p = index_of_char_from(image, '@', 0);
    proof {
        lemma_index_of_from_bounds(image@, '@', 0);
        let i = choose|i: int| marker_at(image@, i);
        assert(image@.subrange(i, i + 8)[0] == '@');
        assert(image@[i] == '@');
        assert(p < image@.len());
    }
    let q = index_of_char_from(image, '@', p + 1);
    proof {
        lemma_index_of_from_bounds(image@, '@', p + 1);
    }
    let d = image.substring_char(p + 1, q);
    ImageDigest::Pinned(String::from_str(d))
}

/// Why a digest does not give a root hash.
#[derive(Clone, Copy, Debug, PartialEq, Eq, Structural)]
pub enum DigestError {
    /// The digest does not start with `sha256:`.
    InvalidFormat,
    /// The hex after the prefix does not decode.
    InvalidHex(HexError),
    /// The hex does not decode to 32 bytes.
    InvalidLength,
}

/// The root hash a digest stands for: `sha256:` followed by the hex of 32 bytes.
pub open spec fn digest_root_spec(digest: Seq<char>) -> Result<Seq<u8>, DigestError> {
    if !has_sha256_prefix(digest) {
        Err(DigestError::InvalidFormat)
    } else {
        match hex_decode_spec(encode_utf8(digest.subrange(7, digest.len() as int))) {
            Err(e) => Err(DigestError::InvalidHex(e)),
            Ok(b) => if b.len() != 32 {
                Err(DigestError::InvalidLength)
            } else {
                Ok(b)
            },
        }
    }
}

/// The root hash of a `sha256:` digest, exactly as `digest_root_spec` says.
pub fn root_hash_from_digest(digest: &str) -> (res: Result<[u8; 32], DigestError>)
    ensures
        match res {
            Ok(r) => digest_root_spec(digest@) == Ok::<Seq<u8>, DigestError>(r@),
            Err(e) => digest_root_spec(digest@) == Err::<Seq<u8>, DigestError>(e),
        },
{
    if !starts_with_sha256(digest) {
        return Err(DigestError::InvalidFormat);
    }
    let hex_part = digest.substring_char(7, digest.unicode_len());
    let bytes = match hex_decode(hex_part) {
        Err(e) => return Err(DigestError::InvalidHex(e)),
        Ok(b) => b,
    };
    if bytes.len() != 32 {
        return Err(DigestError::InvalidLength);
    }
    let mut root = [0u8; 32];
    for i in 0..32
        invariant
            bytes@.len() == 32,
            forall|k: int| 0 <= k < i ==> root@[k] == bytes@[k],
    {
        root[i] = bytes[i];
    }
    assert(root@ =~= bytes@);
    Ok(root)
}

/// The image that runs must be the one that was sealed: the digest recorded in the
/// manifest and the digest of the image must be the same text.
pub fn image_digest_matches(expected: &str, actual: &str) -> (res: bool)
    ensures
        res == (expected@ == actual@),
{
    String::from_str(expected) == String::from_str(actual)
}

/// The sandboxed `docker run` arguments for an image under a container name.
pub open spec fn run_args_spec(container_name: Seq<char>, image: Seq<char>) -> Seq<Seq<char>> {
    seq![
        "run"@,
        "-d"@,
        "--name"@,
        container_name,
        "--rm"@,
        "--read-only"@,
        "--cap-drop=ALL"@,
        "--security-opt=no-new-privileges"@,
        "-p"@,
        "127.0.0.1:3000:3000"@,
        "--network=bridge"@,
        image,
    ]
}

/// The `docker run` arguments: detached, named, removed on exit, read-only, with
/// all capabilities dropped and no privilege gain, the internal port published on
/// loopback only, the bridge network, and the image last.
pub fn container_run_args(container_name: &str, image: &str) -> (res: Vec<String>)
    ensures
        res@.len() == 12,
        forall|i: int| 0 <= i < 12 ==> #[trigger] res@[i]@ == run_args_spec(container_name@, image@)[i],
{
    let mut args: Vec<String> = Vec::new();
    args.push(String::from_str("run"));
    args.push(String::from_str("-d"));
    args.push(String::from_str("--name"));
    args.push(String::from_str(container_name));
    args.push(String::from_str("--rm"));
    args.push(String::from_str("--read-only"));
    args.push(String::from_str("--cap-drop=ALL"));
    args.push(String::from_str("--security-opt=no-new-privileges"));
    args.push(String::from_str("-p"));
    args.push(String::from_str("127.0.0.1:3000:3000"));
    args.push(String::from_str("--network=bridge"));
    args.push(String::from_str(image));
    args
}

} // verus!
