//! SHA-256 digests and their `sha256:`-tagged hexadecimal form.

use vstd::prelude::*;
use vstd::string::*;
use sha2::Digest;
use crate::text::{hex_encode, to_hex};

verus! {

/// The SHA-256 digest of a byte sequence, as computed by the `sha2` crate.
pub uninterp spec fn spec_sha256(data: Seq<u8>) -> Seq<u8>;

/// Calls `sha2::Sha256::digest`. Trusted: the result is the SHA-256 digest of
/// `data` (named `spec_sha256`), and it is 32 bytes long, as the crate documents.
#[verifier::external_body]
pub(crate) fn sha256(data: &[u8]) -> (r: Vec<u8>)
    ensures
        r@ == spec_sha256(data@),
        r@.len() == 32,
{
    sha2::Sha256::digest(data).to_vec()
}

/// The tag that prefixes every hash rendered by this library.
pub open spec fn hash_tag() -> Seq<char> {
    "sha256:"@
}

/// `sha256:` followed by the lower-case hex of the SHA-256 digest of `data`.
pub open spec fn tagged_sha256(data: Seq<u8>) -> Seq<char> {
    hash_tag() + hex_encode(spec_sha256(data))
}

/// Renders a digest as `sha256:<hex>`.
pub fn tag_digest(digest: &[u8]) -> (r: String)
    ensures
        r@ == hash_tag() + hex_encode(digest@),
{
    let mut s = String::from_str("sha256:");
    let h = to_hex(digest);
    s.append(h.as_str());
    s
}

/// `sha256:` followed by the hex SHA-256 digest of `data`.
pub fn tagged_sha256_of(data: &[u8]) -> (r: String)
    ensures
        r@ == tagged_sha256(data@),
{
    let d = sha256(data);
    tag_digest(d.as_slice())
}

/// The tagged SHA-256 of the UTF-8 encoding of a string.
pub fn tagged_sha256_of_str(s: &str) -> (r: String)
    ensures
        r@ == tagged_sha256(s.spec_bytes()),
{
    tagged_sha256_of(s.as_bytes())
}

} // verus!
