//! The two digests that the announcement to the master list is signed with.

use vstd::prelude::*;

verus! {

/// The MD5 digest of a byte sequence: sixteen bytes.
pub uninterp spec fn md5_of(data: Seq<u8>) -> Seq<u8>;

/// The SHA-256 digest of a byte sequence, written out in lower-case
/// hexadecimal digits: sixty-four ASCII bytes.
pub uninterp spec fn sha256_hex_of(data: Seq<u8>) -> Seq<u8>;

/// Calls `md5::compute` and takes the sixteen bytes out of the digest. The
/// contract names them.
#[verifier::external_body]
pub(crate) fn md5_digest(data: &[u8]) -> (digest: [u8; 16])
    ensures
        digest@ == md5_of(data@),
{
    md5::compute(data).0
}

/// Calls `sha256::digest`, which writes the digest of the bytes out in
/// hexadecimal, and takes the bytes of that text. The contract names them,
/// and claims their number: two digits for each of the digest's thirty-two
/// bytes.
#[verifier::external_body]
pub(crate) fn sha256_hex(data: &[u8]) -> (digits: Vec<u8>)
    ensures
        digits@ == sha256_hex_of(data@),
        digits@.len() == 64,
{
    sha256::digest(data).into_bytes()
}

} // verus!
