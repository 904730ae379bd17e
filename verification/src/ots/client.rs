//! OpenTimestamps client. Stamping and verification are local stand-ins: a
//! stamp is the text `MOCK_OTS_PROOF:` followed by the hex SHA-256 of the
//! data, and any proof in that format verifies as confirmed at a fixed height.

use vstd::prelude::*;
use vstd::string::*;
use vstd::utf8::encode_utf8;
use crate::digest::{sha256, spec_sha256};
use crate::text::{hex_encode, to_hex};

verus! {

/// The text every stamp starts with.
pub open spec fn proof_marker() -> Seq<char> {
    "MOCK_OTS_PROOF:"@
}

/// The bytes of the stamp of `data`: the UTF-8 encoding of the marker and the
/// hex SHA-256 digest of `data`.
pub open spec fn stamp_bytes(data: Seq<u8>) -> Seq<u8> {
    encode_utf8(proof_marker() + hex_encode(spec_sha256(data)))
}

/// The block height every accepted proof reports.
pub open spec fn confirmed_height() -> u32 {
    12345
}

/// The answer to a proof: confirmed at the fixed height when it starts with
/// the marker's bytes, refused otherwise.
pub open spec fn verify_outcome(proof: Seq<u8>) -> Result<VerificationResult, OtsError> {
    if proof.len() >= encode_utf8(proof_marker()).len()
        && proof.subrange(0, encode_utf8(proof_marker()).len() as int) == encode_utf8(proof_marker()) {
        Ok(VerificationResult::Confirmed(confirmed_height()))
    } else {
        Err(OtsError::InvalidProofFormat)
    }
}

proof fn lemma_encode_utf8_concat(a: Seq<char>, b: Seq<char>)
    ensures
        encode_utf8(a + b) == encode_utf8(a) + encode_utf8(b),
    decreases a.len(),
{
    if a.len() > 0 {
        assert((a + b).drop_first() =~= a.drop_first() + b);
        assert((a + b)[0] == a[0]);
        lemma_encode_utf8_concat(a.drop_first(), b);
        assert(encode_utf8(a + b) =~= encode_utf8(a) + encode_utf8(b));
    } else {
        assert(a + b =~= b);
        assert(encode_utf8(a) + encode_utf8(b) =~= encode_utf8(b));
    }
}

/// Whatever the data, the stamp the client makes of it is a proof that
/// verifies, as confirmed at the fixed height, against any data.
pub proof fn lemma_stamp_verifies(data: Seq<u8>)
    ensures
        verify_outcome(stamp_bytes(data)) == Ok::<VerificationResult, OtsError>(VerificationResult::Confirmed(confirmed_height())),
{
    let m = encode_utf8(proof_marker());
    let h = encode_utf8(hex_encode(spec_sha256(data)));
    lemma_encode_utf8_concat(proof_marker(), hex_encode(spec_sha256(data)));
    assert(stamp_bytes(data) == m + h);
    assert((m + h).subrange(0, m.len() as int) =~= m);
}

/// Result of timestamp verification.
#[derive(Debug, PartialEq, Eq, Structural)]
pub enum VerificationResult {
    /// The timestamp is waiting for confirmation.
    Pending,
    /// The timestamp is confirmed at the given Bitcoin block height.
    Confirmed(u32),
}

impl VerificationResult {
    /// Is the timestamp confirmed?
    pub fn is_confirmed(&self) -> (r: bool)
        ensures
            r == (*self is Confirmed),
    {
        match self {
            VerificationResult::Confirmed(_) => true,
            VerificationResult::Pending => false,
        }
    }

    /// The block height, when confirmed.
    pub fn block_height(&self) -> (r: Option<u32>)
        ensures
            r == (match *self {
                VerificationResult::Confirmed(h) => Some(h),
                VerificationResult::Pending => None,
            }),
    {
        match self {
            VerificationResult::Confirmed(height) => Some(*height),
            VerificationResult::Pending => None,
        }
    }
}

/// Why a proof was refused.
#[derive(Debug, PartialEq, Eq, Structural)]
pub enum OtsError {
    InvalidProofFormat,
}

/// A client for one OpenTimestamps aggregator.
pub struct OtsClient {
    pub aggregator_url: String,
}

impl OtsClient {
    /// A client for the given aggregator.
    pub fn new(aggregator_url: String) -> (r: Self)
        ensures
            r.aggregator_url == aggregator_url,
    {
        OtsClient { aggregator_url }
    }

    /// Stamps `data`.
    pub fn stamp(&self, data: &[u8]) -> (r: Vec<u8>)
        ensures
            r@ == stamp_bytes(data@),
    {
        let digest = sha256(data);
        let mut text = String::from_str("MOCK_OTS_PROOF:");
        let h = to_hex(digest.as_slice());
        text.append(h.as_str());
        text.as_str().as_bytes_vec()
    }

    /// Verifies a proof: one that starts with the marker's bytes is confirmed
    /// at the fixed height; any other is refused.
    pub fn verify(&self, data: &[u8], proof: &[u8]) -> (r: Result<VerificationResult, OtsError>)
        ensures
            r == verify_outcome(proof@),
    {
        let marker = "MOCK_OTS_PROOF:".as_bytes_vec();
        let m = marker.len();
        let n = proof.len();
        if n < m {
            return Err(OtsError::InvalidProofFormat);
        }
        let mut i: usize = 0;
        while i < m
            invariant
                m == marker@.len(),
                n == proof@.len(),
                m <= n,
                i <= m,
                marker@ == encode_utf8(proof_marker()),
                forall|j: int| 0 <= j < i ==> proof@[j] == marker@[j],
            decreases m - i,
        {
            if proof[i] != marker[i] {
                assert(proof@.subrange(0, m as int)[i as int] != marker@[i as int]);
                return Err(OtsError::InvalidProofFormat);
            }
            i = i + 1;
        }
        assert(proof@.subrange(0, m as int) =~= marker@);
        Ok(VerificationResult::Confirmed(12345))
    }

    /// Upgrades a pending proof; the local stand-in returns it unchanged.
    pub fn upgrade(&self, proof: &[u8]) -> (r: Vec<u8>)
        ensures
            r@ == proof@,
    {
        vstd::slice::slice_to_vec(proof)
    }
}

} // verus!
