use vstd::prelude::*;

verus! {

/// The lowercase hex digit of a value below 16.
pub open spec fn hex_digit(v: u8) -> char {
    if v < 10 {
        (('0' as u8) + v) as char
    } else {
        (('a' as u8) + (v - 10)) as char
    }
}

/// Lowercase hex text of a byte string: two digits per byte, the high
/// half first.
pub open spec fn hex_text(b: Seq<u8>) -> Seq<char>
    decreases b.len(),
{
    if b.len() == 0 {
        Seq::empty()
    } else {
        let last = b.last();
        hex_text(b.drop_last()).push(hex_digit(last / 16)).push(hex_digit(last % 16))
    }
}

/// The MD5 digest of a byte string.
pub uninterp spec fn md5_of(b: Seq<u8>) -> Seq<u8>;

/// The SHA-1 digest of a byte string.
pub uninterp spec fn sha1_of(b: Seq<u8>) -> Seq<u8>;

/// The SHA-256 digest of a byte string.
pub uninterp spec fn sha256_of(b: Seq<u8>) -> Seq<u8>;

/// The SHA-512 digest of a byte string.
pub uninterp spec fn sha512_of(b: Seq<u8>) -> Seq<u8>;

/// Relies on `md5::Md5` (the md-5 crate) through `Digest::digest`: the
/// 16-byte MD5 digest of the input.
#[verifier::external_body]
fn md5_digest(data: &[u8]) -> (r: Vec<u8>)
    ensures
        r@ == md5_of(data@),
        r@.len() == 16,
{
    <md5::Md5 as md5::Digest>::digest(data).to_vec()
}

/// Relies on `sha1::Sha1` through `Digest::digest`: the 20-byte SHA-1
/// digest of the input.
#[verifier::external_body]
fn sha1_digest(data: &[u8]) -> (r: Vec<u8>)
    ensures
        r@ == sha1_of(data@),
        r@.len() == 20,
{
    <sha1::Sha1 as sha1::Digest>::digest(data).to_vec()
}

/// Relies on `sha2::Sha256` through `Digest::digest`: the 32-byte SHA-256
/// digest of the input.
#[verifier::external_body]
fn sha256_digest(data: &[u8]) -> (r: Vec<u8>)
    ensures
        r@ == sha256_of(data@),
        r@.len() == 32,
{
    <sha2::Sha256 as sha2::Digest>::digest(data).to_vec()
}

/// Relies on `sha2::Sha512` through `Digest::digest`: the 64-byte SHA-512
/// digest of the input.
#[verifier::external_body]
fn sha512_digest(data: &[u8]) -> (r: Vec<u8>)
    ensures
        r@ == sha512_of(data@),
        r@.len() == 64,
{
    <sha2::Sha512 as sha2::Digest>::digest(data).to_vec()
}

/// Relies on `hex::encode`: lowercase hex, two digits per byte, high half
/// first.
#[verifier::external_body]
fn to_hex(data: &Vec<u8>) -> (r: String)
    ensures
        r@ == hex_text(data@),
{
    hex::encode(data)
}

/// The text that names no known algorithm.
pub open spec fn unknown_algorithm_text() -> Seq<char> {
    "Unknown algorithm"@
}

/// The digest of `data` under the algorithm that `algo` names, as
/// lowercase hex; an unknown name gives a fixed sentinel text.
pub open spec fn digest_text(data: Seq<u8>, algo: Seq<char>) -> Seq<char> {
    if algo == "md5"@ {
        hex_text(md5_of(data))
    } else if algo == "sha1"@ {
        hex_text(sha1_of(data))
    } else if algo == "sha256"@ {
        hex_text(sha256_of(data))
    } else if algo == "sha512"@ {
        hex_text(sha512_of(data))
    } else {
        unknown_algorithm_text()
    }
}

/// Hex text has two digits per byte.
pub proof fn lemma_hex_text_len(b: Seq<u8>)
    ensures
        hex_text(b).len() == 2 * b.len(),
    decreases b.len(),
{
    if b.len() > 0 {
        lemma_hex_text_len(b.drop_last());
    }
}

/// Hashes `data` with the algorithm named `algo` ("md5", "sha1", "sha256"
/// or "sha512") and returns the digest as lowercase hex; any other name
/// gives the text "Unknown algorithm".
pub fn hash_file_bytes(data: &[u8], algo: &str) -> (r: String)
    ensures
        r@ == digest_text(data@, algo@),
        algo@ == "md5"@ ==> r@.len() == 32,
        algo@ == "sha1"@ ==> r@.len() == 40,
        algo@ == "sha256"@ ==> r@.len() == 64,
        algo@ == "sha512"@ ==> r@.len() == 128,
{
    proof {
        reveal_strlit("md5");
        reveal_strlit("sha1");
        reveal_strlit("sha256");
        reveal_strlit("sha512");
        assert("md5"@.len() == 3 && "sha1"@.len() == 4 && "sha256"@.len() == 6);
        assert("sha256"@[3] != "sha512"@[3]);
    }
    let digest = if crate::text::same_text(algo, "md5") {
        md5_digest(data)
    } else if crate::text::same_text(algo, "sha1") {
        sha1_digest(data)
    } else if crate::text::same_text(algo, "sha256") {
        sha256_digest(data)
    } else if crate::text::same_text(algo, "sha512") {
        sha512_digest(data)
    } else {
        return String::from_str("Unknown algorithm");
    };
    proof {
        lemma_hex_text_len(digest@);
    }
    to_hex(&digest)
}

/// The digest text is a function of the bytes and the algorithm name:
/// hashing equal bytes under one name twice gives equal text.
pub proof fn lemma_digest_deterministic(a: Seq<u8>, b: Seq<u8>, algo: Seq<char>)
    requires
        a == b,
    ensures
        digest_text(a, algo) == digest_text(b, algo),
{
}

} // verus!
