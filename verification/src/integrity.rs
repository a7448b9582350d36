//! Artifact integrity: the content digest and its comparison against the
//! digest a package declares.

use sha1::Digest;
use vstd::prelude::*;
use crate::strutil::str_eq;

verus! {

/// The lowercase hex SHA-1 digest of a byte sequence: a pure function of the
/// bytes alone, left abstract here.
pub uninterp spec fn sha1_hex_of(data: Seq<u8>) -> Seq<char>;

/// Relies on `sha1::Sha1::digest` (the one-shot `digest` API): the SHA-1
/// digest is 20 bytes, depends on the input bytes alone, and prints as 40
/// lowercase hex characters.
#[verifier::external_body]
pub(crate) fn sha1_hex(data: &Vec<u8>) -> (r: String)
    ensures
        r@ == sha1_hex_of(data@),
        r@.len() == 40,
{
    let digest = sha1::Sha1::digest(data.as_slice());
    format!("{:x}", digest)
}

/// True when the bytes hash to the declared hex digest.
pub open spec fn matches_digest(data: Seq<u8>, declared: Seq<char>) -> bool {
    sha1_hex_of(data) == declared
}

/// Whether an artifact's bytes match a declared digest: the test that
/// decides both cache reuse and post-download verification.
pub fn artifact_matches(data: &Vec<u8>, declared: &str) -> (r: bool)
    ensures
        r == matches_digest(data@, declared@),
{
    let h = sha1_hex(data);
    str_eq(h.as_str(), declared)
}

} // verus!
