use vstd::prelude::*;

verus! {

/// The lower-case hex encoding of the SHA-256 digest of a byte sequence.
pub uninterp spec fn digest_of(b: Seq<u8>) -> Seq<char>;

/// Relies on sha256::digest: the result is the 64-character lower-case hex
/// encoding of the SHA-256 digest of the input bytes, a function of those
/// bytes alone.
#[verifier::external_body]
pub(crate) fn file_digest(b: &Vec<u8>) -> (r: String)
    ensures
        r@ == digest_of(b@),
        r@.len() == 64,
{
    sha256::digest(b)
}

} // verus!
