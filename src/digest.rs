use vstd::prelude::*;

verus! {

/// The SHA-256 digest of `bytes`, written as lowercase hexadecimal.
pub uninterp spec fn sha256_hex(bytes: Seq<u8>) -> Seq<char>;

/// Relies on `sha256::digest` on `&Vec<u8>`: hex encoding of the 32-byte
/// SHA-256 output of the bytes, so 64 characters that depend on the bytes alone.
#[verifier::external_body]
fn sha256_digest(bytes: &Vec<u8>) -> (r: String)
    ensures
        r@ == sha256_hex(bytes@),
        r@.len() == 64,
{
    sha256::digest(bytes)
}

/// The content digest of a file whose full content is `bytes`.
pub fn content_digest(bytes: &Vec<u8>) -> (r: String)
    ensures
        r@ == sha256_hex(bytes@),
        r@.len() == 64,
{
    sha256_digest(bytes)
}

/// Hashing is deterministic: equal contents give equal digests.
pub proof fn digest_is_deterministic(x: Seq<u8>, y: Seq<u8>)
    requires
        x == y,
    ensures
        sha256_hex(x) == sha256_hex(y),
{
}

} // verus!
