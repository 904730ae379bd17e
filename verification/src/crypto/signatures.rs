//! ECDSA signatures over the SHA-256 digest of a message, through the
//! `secp256k1` crate. Keys and signatures cross this module as bytes: a
//! public key in its 33-byte compressed form, a signature in its 64-byte
//! compact form.

use vstd::prelude::*;
use vstd::string::*;
use vstd::utf8::encode_utf8;
use crate::digest::{sha256, spec_sha256};
use crate::text::{dec_nat, u64_to_string};
use crate::ots::summaries::{hex_decode, hex_decoded};

verus! {

/// The compressed key that `secp256k1` parses from a hex text, if it
/// accepts the text.
pub uninterp spec fn spec_parse_public_key(text: Seq<char>) -> Option<Seq<u8>>;

/// The compact signature that `secp256k1` parses from a DER hex text, if it
/// accepts the text.
pub uninterp spec fn spec_parse_signature(text: Seq<char>) -> Option<Seq<u8>>;

/// Whether `secp256k1` accepts `signature` (compact) over `digest` by
/// `public_key` (serialized).
pub uninterp spec fn spec_ecdsa_verify(digest: Seq<u8>, signature: Seq<u8>, public_key: Seq<u8>) -> bool;

/// The hex DER text of the signature `secp256k1` makes over `digest` with
/// `secret_key` (RFC 6979 nonces make it a function of the two).
pub uninterp spec fn spec_ecdsa_sign(digest: Seq<u8>, secret_key: Seq<u8>) -> Seq<char>;

/// Calls `str::parse::<secp256k1::PublicKey>` and serializes the key.
/// Trusted: the key is `spec_parse_public_key` of the text, and the call
/// fails exactly where that gives none; the error text is the crate's and is
/// not described.
#[verifier::external_body]
pub(crate) fn parse_public_key(text: &str) -> (r: Result<Vec<u8>, String>)
    ensures
        match r {
            Ok(k) => spec_parse_public_key(text@) == Some(k@),
            Err(_) => spec_parse_public_key(text@) is None,
        },
{
    match text.parse::<secp256k1::PublicKey>() {
        Ok(k) => Ok(k.serialize().to_vec()),
        Err(e) => Err(e.to_string()),
    }
}

/// Calls `str::parse::<secp256k1::ecdsa::Signature>` and serializes the
/// signature in compact form. Trusted: the signature is
/// `spec_parse_signature` of the text, and the call fails exactly where that
/// gives none; the error text is the crate's and is not described.
#[verifier::external_body]
pub(crate) fn parse_signature(text: &str) -> (r: Result<Vec<u8>, String>)
    ensures
        match r {
            Ok(s) => spec_parse_signature(text@) == Some(s@),
            Err(_) => spec_parse_signature(text@) is None,
        },
{
    match text.parse::<secp256k1::ecdsa::Signature>() {
        Ok(s) => Ok(s.serialize_compact().to_vec()),
        Err(e) => Err(e.to_string()),
    }
}

/// Calls `secp256k1::Secp256k1::verify_ecdsa` on the digest, signature and
/// key read back from their bytes. Trusted: the answer is
/// `spec_ecdsa_verify` of the three byte sequences.
#[verifier::external_body]
pub(crate) fn ecdsa_verify(digest: &[u8], signature: &[u8], public_key: &[u8]) -> (r: bool)
    ensures
        r == spec_ecdsa_verify(digest@, signature@, public_key@),
{
    match (
        secp256k1::Message::from_digest_slice(digest),
        secp256k1::ecdsa::Signature::from_compact(signature),
        secp256k1::PublicKey::from_slice(public_key),
    ) {
        (Ok(m), Ok(s), Ok(k)) => secp256k1::Secp256k1::verification_only().verify_ecdsa(&m, &s, &k).is_ok(),
        _ => false,
    }
}

/// The integer whose big-endian bytes these are.
pub open spec fn big_endian(b: Seq<u8>) -> nat
    decreases b.len(),
{
    if b.len() == 0 {
        0
    } else {
        big_endian(b.drop_last()) * 256 + (b.last() as nat)
    }
}

/// The order of the secp256k1 curve.
pub open spec fn curve_order() -> nat {
    0xFFFF_FFFF_FFFF_FFFF_FFFF_FFFF_FFFF_FFFE_BAAE_DCE6_AF48_A03B_BFD2_5E8C_D036_4141nat
}

/// A secret key `secp256k1` accepts: 32 bytes that, read most significant
/// byte first, make an integer that is not zero and is below the curve
/// order.
pub open spec fn valid_secret_key(k: Seq<u8>) -> bool {
    k.len() == 32 && 0 < big_endian(k) < curve_order()
}

/// Calls `secp256k1::Secp256k1::sign_ecdsa` with the secret key read from
/// its 32 bytes, and renders the signature as hex DER text. Trusted: a
/// signature made is `spec_ecdsa_sign` of the digest and the key, and the
/// call succeeds exactly when the digest has 32 bytes
/// (`Message::from_digest_slice`) and the key is valid (`SecretKey::from_slice`,
/// which the library documents as 32 bytes, not zero, below the curve
/// order); signing itself does not fail. The error text is the crate's and
/// is not described.
#[verifier::external_body]
fn ecdsa_sign(digest: &[u8], secret_key: &[u8]) -> (r: Result<String, String>)
    ensures
        r is Ok <==> (digest@.len() == 32 && valid_secret_key(secret_key@)),
        r matches Ok(s) ==> s@ == spec_ecdsa_sign(digest@, secret_key@),
{
    let message = secp256k1::Message::from_digest_slice(digest).map_err(|e| e.to_string())?;
    let key = secp256k1::SecretKey::from_slice(secret_key).map_err(|e| e.to_string())?;
    Ok(secp256k1::Secp256k1::signing_only().sign_ecdsa(&message, &key).to_string())
}

/// The 33-byte compressed public key `secp256k1` derives from a valid
/// secret key.
pub uninterp spec fn spec_public_key_of(secret_key: Seq<u8>) -> Seq<u8>;

/// Calls `secp256k1::PublicKey::from_secret_key` on the key read back with
/// `SecretKey::from_slice`, and serializes it compressed. Trusted: for a
/// valid secret key the result is `spec_public_key_of` of it, 33 bytes
/// long (`PublicKey::serialize`).
#[verifier::external_body]
fn public_key_of(secret_key: &[u8]) -> (r: Vec<u8>)
    requires
        valid_secret_key(secret_key@),
    ensures
        r@ == spec_public_key_of(secret_key@),
        r@.len() == 33,
{
    match secp256k1::SecretKey::from_slice(secret_key) {
        Ok(k) => secp256k1::PublicKey::from_secret_key(&secp256k1::Secp256k1::signing_only(), &k).serialize().to_vec(),
        Err(_) => Vec::new(),
    }
}

/// The SHA-256 digest of the UTF-8 bytes of a message.
pub open spec fn message_digest(message: Seq<char>) -> Seq<u8> {
    spec_sha256(encode_utf8(message))
}

/// Verifies ECDSA signatures over message digests.
pub struct SignatureManager;

impl SignatureManager {
    /// A signature manager.
    pub fn new() -> (r: Self) {
        SignatureManager
    }

    /// Signs the digest of `message` with a 32-byte secret key; the
    /// signature is hex DER text. Fails exactly where the key is not a valid
    /// secret key.
    pub fn create_signature(&self, message: &str, secret_key: &[u8]) -> (r: Result<String, String>)
        ensures
            r is Ok <==> valid_secret_key(secret_key@),
            r matches Ok(s) ==> s@ == spec_ecdsa_sign(message_digest(message@), secret_key@),
    {
        let bytes = message.as_bytes_vec();
        let digest = sha256(bytes.as_slice());
        ecdsa_sign(digest.as_slice(), secret_key)
    }

    /// Signs the digest of `message` with a secret key given as hex text, as
    /// a key file holds it: the text must decode to the bytes of a valid
    /// secret key (64 hex digits, either case, as `secp256k1` reads a
    /// secret key from a string); the signature is hex DER text.
    pub fn create_signature_from_hex(&self, message: &str, secret_key_hex: &str) -> (r: Result<String, String>)
        ensures
            r is Ok <==> (hex_decoded(secret_key_hex@) matches Some(k) && valid_secret_key(k)),
            r matches Ok(s) ==> s@ == spec_ecdsa_sign(message_digest(message@), hex_decoded(secret_key_hex@)->0),
    {
        match hex_decode(secret_key_hex) {
            Some(k) => self.create_signature(message, k.as_slice()),
            None => Err(String::from_str("Invalid secret key hex")),
        }
    }

    /// The compressed public key of a valid secret key.
    pub fn public_key_from_secret(&self, secret_key: &[u8]) -> (r: Vec<u8>)
        requires
            valid_secret_key(secret_key@),
        ensures
            r@ == spec_public_key_of(secret_key@),
            r@.len() == 33,
    {
        public_key_of(secret_key)
    }

    /// Whether `signature` (compact) signs the digest of `message` under
    /// `public_key` (serialized).
    pub fn verify_signature(&self, message: &str, signature: &[u8], public_key: &[u8]) -> (r: bool)
        ensures
            r == spec_ecdsa_verify(message_digest(message@), signature@, public_key@),
    {
        let bytes = message.as_bytes_vec();
        let digest = sha256(bytes.as_slice());
        ecdsa_verify(digest.as_slice(), signature, public_key)
    }

    /// Verifies a signature given as hex DER text under a public key given as
    /// hex text. Fails, with the parser's message, where either text is not
    /// one that `secp256k1` reads; otherwise answers whether the signature
    /// signs the digest of `message`.
    pub fn verify_governance_signature(&self, message: &str, signature: &str, public_key: &str) -> (r: Result<bool, String>)
        ensures
            match r {
                Ok(b) => spec_parse_signature(signature@) is Some && spec_parse_public_key(public_key@) is Some
                    && b == spec_ecdsa_verify(message_digest(message@), spec_parse_signature(signature@)->0, spec_parse_public_key(public_key@)->0),
                Err(_) => spec_parse_signature(signature@) is None || spec_parse_public_key(public_key@) is None,
            },
    {
        let sig = match parse_signature(signature) {
            Ok(s) => s,
            Err(e) => return Err(e),
        };
        let key = match parse_public_key(public_key) {
            Ok(k) => k,
            Err(e) => return Err(e),
        };
        Ok(self.verify_signature(message, sig.as_slice(), key.as_slice()))
    }
}

/// The text a maintainer signs to approve pull request `pr` of `repo`: the
/// given message, or else `PR #<pr> in <repo>`.
pub fn pr_sign_message(repo: &str, pr: u64, message: Option<String>) -> (r: String)
    ensures
        r@ == match message {
            Some(m) => m@,
            None => "PR #"@ + dec_nat(pr as nat) + " in "@ + repo@,
        },
{
    match message {
        Some(m) => m,
        None => {
            let mut s = String::from_str("PR #");
            let n = u64_to_string(pr);
            s.append(n.as_str());
            s.append(" in ");
            s.append(repo);
            proof {
                reveal_strlit("PR #");
                reveal_strlit(" in ");
            }
            s
        },
    }
}

} // verus!
