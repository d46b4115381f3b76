//! Password digests.
use vstd::prelude::*;

verus! {

/// The SHA3-256 digest of a byte sequence.
pub uninterp spec fn sha3_256(data: Seq<u8>) -> Seq<u8>;

/// The text that `String::from_utf8_lossy` makes of a byte sequence.
pub uninterp spec fn utf8_lossy(bytes: Seq<u8>) -> Seq<char>;

/// Trusted: calls `tiny_keccak::sha3_256`, whose result is the 32-byte
/// SHA3-256 digest of `data` (a function of `data` alone).
#[verifier::external_body]
fn sha3_256_digest(data: &[u8]) -> (r: Vec<u8>)
    ensures
        r@ == sha3_256(data@),
        r@.len() == 32,
{
    tiny_keccak::sha3_256(data).to_vec()
}

/// Trusted: calls `String::from_utf8_lossy`, which std documents as giving
/// back the text of valid UTF-8 unchanged and replacing invalid sequences
/// with U+FFFD; the result is a function of the bytes alone.
#[verifier::external_body]
fn from_utf8_lossy(bytes: &[u8]) -> (r: String)
    ensures
        r@ == utf8_lossy(bytes@),
        vstd::utf8::valid_utf8(bytes@) ==> r@ == vstd::utf8::decode_utf8(bytes@),
{
    String::from_utf8_lossy(bytes).into_owned()
}

/// The stored form of a password: the SHA3-256 digest of its UTF-8 bytes,
/// read as lossy UTF-8.
pub open spec fn password_digest(text: Seq<char>) -> Seq<char> {
    utf8_lossy(sha3_256(vstd::utf8::encode_utf8(text)))
}

/// Digest of a password as it is stored in the user table.
pub fn get_sha3(text: &str) -> (r: String)
    ensures
        r@ == password_digest(text@),
        r@ == utf8_lossy(sha3_256(vstd::utf8::encode_utf8(text@))),
{
    let digest = sha3_256_digest(text.as_bytes());
    from_utf8_lossy(digest.as_slice())
}

/// The stored digest of a password is SHA3-256 of all the bytes of its
/// UTF-8 form: for any bytes that are valid UTF-8 and decode to the
/// password, the digest is taken of exactly those bytes. Two different
/// passwords are digested from different byte sequences.
pub proof fn lemma_digest_of_whole_text(text: Seq<char>, bytes: Seq<u8>, other: Seq<char>)
    requires
        vstd::utf8::valid_utf8(bytes),
        vstd::utf8::decode_utf8(bytes) == text,
    ensures
        password_digest(text) == utf8_lossy(sha3_256(bytes)),
        other != text ==> vstd::utf8::encode_utf8(other) != bytes,
{
    vstd::utf8::decode_utf8_encode_utf8(bytes);
    vstd::utf8::encode_utf8_decode_utf8(other);
}

} // verus!
