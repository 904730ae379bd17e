//! Multisignature thresholds: a message is approved when enough of the
//! listed signers, each with a registered public key, signed it.

use vstd::prelude::*;
use vstd::string::*;
use crate::crypto::signatures::{
    message_digest, parse_public_key, parse_signature, spec_ecdsa_verify, spec_parse_public_key,
    spec_parse_signature, SignatureManager,
};
use crate::error::GovernanceError;
use crate::text::{dec_nat, str_eq, u64_to_string};

verus! {

/// The key registered for `name`: the first entry with that name.
pub open spec fn key_for(keys: Seq<(String, String)>, name: Seq<char>) -> Option<Seq<char>>
    decreases keys.len(),
{
    if keys.len() == 0 {
        None
    } else if keys[0].0@ == name {
        Some(keys[0].1@)
    } else {
        key_for(keys.drop_first(), name)
    }
}

/// Each signer is registered with one key at most, as in a map from names
/// to keys.
pub open spec fn keys_unique(keys: Seq<(String, String)>) -> bool {
    forall|i: int, j: int| 0 <= i < j < keys.len() ==> keys[i].0@ != keys[j].0@
}

/// What checking one `(signer, signature)` entry finds.
#[derive(PartialEq, Eq, Structural)]
pub enum SignatureCheck {
    /// The signer has no registered key; the entry does not count.
    Unknown,
    /// The signer's key does not parse.
    BadKey,
    /// The signature does not parse.
    BadSignature,
    /// The signature verifies.
    Valid,
    /// The signature parses but does not verify.
    Invalid,
}

/// The check of one entry against the registered keys.
pub open spec fn check_entry(e: (String, String), keys: Seq<(String, String)>, message: Seq<char>) -> SignatureCheck {
    match key_for(keys, e.0@) {
        None => SignatureCheck::Unknown,
        Some(k) => match spec_parse_public_key(k) {
            None => SignatureCheck::BadKey,
            Some(kb) => match spec_parse_signature(e.1@) {
                None => SignatureCheck::BadSignature,
                Some(sb) => if spec_ecdsa_verify(message_digest(message), sb, kb) {
                    SignatureCheck::Valid
                } else {
                    SignatureCheck::Invalid
                },
            },
        },
    }
}

/// A check that stops the count with an error.
pub open spec fn is_malformed(c: SignatureCheck) -> bool {
    c == SignatureCheck::BadKey || c == SignatureCheck::BadSignature
}

/// The position of the first entry whose key or signature does not parse.
pub open spec fn first_malformed(sigs: Seq<(String, String)>, keys: Seq<(String, String)>, message: Seq<char>) -> Option<nat>
    decreases sigs.len(),
{
    if sigs.len() == 0 {
        None
    } else {
        match first_malformed(sigs.drop_last(), keys, message) {
            Some(k) => Some(k),
            None => if is_malformed(check_entry(sigs.last(), keys, message)) {
                Some((sigs.len() - 1) as nat)
            } else {
                None
            },
        }
    }
}

/// The signers whose signatures verify, in order.
pub open spec fn valid_signers(sigs: Seq<(String, String)>, keys: Seq<(String, String)>, message: Seq<char>) -> Seq<Seq<char>>
    decreases sigs.len(),
{
    if sigs.len() == 0 {
        Seq::empty()
    } else if check_entry(sigs.last(), keys, message) == SignatureCheck::Valid {
        valid_signers(sigs.drop_last(), keys, message).push(sigs.last().0@)
    } else {
        valid_signers(sigs.drop_last(), keys, message)
    }
}

/// The start of the error for a malformed entry.
pub open spec fn malformed_prefix(e: (String, String), keys: Seq<(String, String)>, message: Seq<char>) -> Seq<char> {
    if check_entry(e, keys, message) == SignatureCheck::BadKey {
        "Invalid public key for "@ + e.0@ + ": "@
    } else {
        "Invalid signature from "@ + e.0@ + ": "@
    }
}

/// The error for a threshold that is not met.
pub open spec fn threshold_message(required: usize, total: usize, valid: nat, given: nat) -> Seq<char> {
    "Multisig threshold not met. Required: "@ + dec_nat(required as nat) + "/"@ + dec_nat(total as nat)
        + " signatures, Valid: "@ + dec_nat(valid) + "/"@ + dec_nat(given)
}

/// `pre` starts `s`.
pub open spec fn starts(pre: Seq<char>, s: Seq<char>) -> bool {
    pre.len() <= s.len() && s.subrange(0, pre.len() as int) == pre
}

proof fn lemma_scan_step(sigs: Seq<(String, String)>, i: int, keys: Seq<(String, String)>, message: Seq<char>)
    requires
        0 <= i < sigs.len(),
    ensures
        first_malformed(sigs.subrange(0, i + 1), keys, message) == (match first_malformed(sigs.subrange(0, i), keys, message) {
            Some(k) => Some(k),
            None => if is_malformed(check_entry(sigs[i], keys, message)) { Some(i as nat) } else { None },
        }),
        valid_signers(sigs.subrange(0, i + 1), keys, message) == (if check_entry(sigs[i], keys, message) == SignatureCheck::Valid {
            valid_signers(sigs.subrange(0, i), keys, message).push(sigs[i].0@)
        } else {
            valid_signers(sigs.subrange(0, i), keys, message)
        }),
{
    assert(sigs.subrange(0, i + 1).drop_last() =~= sigs.subrange(0, i));
}

proof fn lemma_valid_len(sigs: Seq<(String, String)>, keys: Seq<(String, String)>, message: Seq<char>)
    ensures
        valid_signers(sigs, keys, message).len() <= sigs.len(),
    decreases sigs.len(),
{
    if sigs.len() > 0 {
        lemma_valid_len(sigs.drop_last(), keys, message);
    }
}

/// Looks up the key registered for a signer.
fn lookup_key(keys: &[(String, String)], name: &str) -> (r: Option<String>)
    ensures
        match r { Some(k) => key_for(keys@, name@) == Some(k@), None => key_for(keys@, name@) is None },
{
    let n = keys.len();
    let mut i: usize = 0;
    proof {
        assert(keys@.subrange(0, n as int) =~= keys@);
    }
    while i < n
        invariant
            n == keys@.len(),
            i <= n,
            key_for(keys@, name@) == key_for(keys@.subrange(i as int, n as int), name@),
        decreases n - i,
    {
        proof {
            assert(keys@.subrange(i as int, n as int).drop_first() =~= keys@.subrange(i + 1, n as int));
        }
        if str_eq(keys[i].0.as_str(), name) {
            return Some(keys[i].1.clone());
        }
        i = i + 1;
    }
    None
}

/// Checks multisignature thresholds.
pub struct MultisigManager {
    pub signature_manager: SignatureManager,
}

/// The outcome of checking one entry: its check, and the error text of a
/// malformed key or signature.
fn check_one(manager: &SignatureManager, message: &str, signer: &String, signature: &String, keys: &[(String, String)]) -> (r: (SignatureCheck, Option<GovernanceError>))
    ensures
        r.0 == check_entry((*signer, *signature), keys@, message@),
        is_malformed(r.0) <==> r.1 is Some,
        r.1 matches Some(e) ==> (e matches GovernanceError::CryptoError(m)
            && starts(malformed_prefix((*signer, *signature), keys@, message@), m@)),
{
    match lookup_key(keys, signer.as_str()) {
        None => (SignatureCheck::Unknown, None),
        Some(key_text) => {
            match parse_public_key(key_text.as_str()) {
                Err(e) => {
                    let mut m = String::from_str("Invalid public key for ");
                    m.append(signer.as_str());
                    m.append(": ");
                    let ghost pre = m@;
                    m.append(e.as_str());
                    proof {
                        assert(m@.subrange(0, pre.len() as int) =~= pre);
                    }
                    (SignatureCheck::BadKey, Some(GovernanceError::CryptoError(m)))
                },
                Ok(key) => {
                    match parse_signature(signature.as_str()) {
                        Err(e) => {
                            let mut m = String::from_str("Invalid signature from ");
                            m.append(signer.as_str());
                            m.append(": ");
                            let ghost pre = m@;
                            m.append(e.as_str());
                            proof {
                                assert(m@.subrange(0, pre.len() as int) =~= pre);
                                reveal_strlit("Invalid public key for ");
                                reveal_strlit("Invalid signature from ");
                            }
                            (SignatureCheck::BadSignature, Some(GovernanceError::CryptoError(m)))
                        },
                        Ok(sig) => {
                            if manager.verify_signature(message, sig.as_slice(), key.as_slice()) {
                                (SignatureCheck::Valid, None)
                            } else {
                                (SignatureCheck::Invalid, None)
                            }
                        },
                    }
                },
            }
        },
    }
}

impl MultisigManager {
    /// A manager.
    pub fn new() -> (r: Self) {
        MultisigManager { signature_manager: SignatureManager::new() }
    }

    /// Counts the entries whose signatures verify under their signer's
    /// registered key, skipping signers without one. A key or signature that
    /// does not parse is an error at once. The threshold is met when at
    /// least `required` signatures verify; otherwise the error says how many
    /// did.
    pub fn verify_multisig(&self, message: &str, signatures: &[(String, String)], public_keys: &[(String, String)], required_threshold: (usize, usize)) -> (r: Result<bool, GovernanceError>)
        requires
            keys_unique(public_keys@),
        ensures
            match first_malformed(signatures@, public_keys@, message@) {
                Some(k) => r matches Err(GovernanceError::CryptoError(m))
                    && starts(malformed_prefix(signatures@[k as int], public_keys@, message@), m@),
                None => {
                    let valid = valid_signers(signatures@, public_keys@, message@).len();
                    if valid >= required_threshold.0 {
                        r == Ok::<bool, GovernanceError>(true)
                    } else {
                        r matches Err(GovernanceError::ThresholdError(m))
                            && m@ == threshold_message(required_threshold.0, required_threshold.1, valid, signatures@.len())
                    }
                },
            },
    {
        let (required, total) = required_threshold;
        let signers = match self.get_verified_signers(message, signatures, public_keys) {
            Ok(v) => v,
            Err(e) => return Err(e),
        };
        let valid = signers.len();
        if valid >= required {
            Ok(true)
        } else {
            let mut m = String::from_str("Multisig threshold not met. Required: ");
            let a = u64_to_string(required as u64);
            m.append(a.as_str());
            m.append("/");
            let b = u64_to_string(total as u64);
            m.append(b.as_str());
            m.append(" signatures, Valid: ");
            let c = u64_to_string(valid as u64);
            m.append(c.as_str());
            m.append("/");
            let d = u64_to_string(signatures.len() as u64);
            m.append(d.as_str());
            Err(GovernanceError::ThresholdError(m))
        }
    }

    /// The signers whose signatures verify, in order, or the error of the
    /// first entry whose key or signature does not parse.
    pub fn get_verified_signers(&self, message: &str, signatures: &[(String, String)], public_keys: &[(String, String)]) -> (r: Result<Vec<String>, GovernanceError>)
        requires
            keys_unique(public_keys@),
        ensures
            match first_malformed(signatures@, public_keys@, message@) {
                Some(k) => r matches Err(GovernanceError::CryptoError(m))
                    && starts(malformed_prefix(signatures@[k as int], public_keys@, message@), m@),
                None => r matches Ok(v) && crate::text::views(v@) == valid_signers(signatures@, public_keys@, message@),
            },
    {
        let mut verified: Vec<String> = Vec::new();
        let n = signatures.len();
        let mut i: usize = 0;
        while i < n
            invariant
                n == signatures@.len(),
                i <= n,
                first_malformed(signatures@.subrange(0, i as int), public_keys@, message@) is None,
                crate::text::views(verified@) == valid_signers(signatures@.subrange(0, i as int), public_keys@, message@),
            decreases n - i,
        {
            proof {
                lemma_scan_step(signatures@, i as int, public_keys@, message@);
            }
            let (check, err) = check_one(&self.signature_manager, message, &signatures[i].0, &signatures[i].1, public_keys);
            match err {
                Some(e) => {
                    proof {
                        lemma_first_malformed_prefix(signatures@, i as int, public_keys@, message@);
                    }
                    return Err(e);
                },
                None => {},
            }
            if check == SignatureCheck::Valid {
                let ghost before = verified@;
                verified.push(signatures[i].0.clone());
                proof {
                    assert(crate::text::views(verified@) =~= crate::text::views(before).push(signatures@[i as int].0@));
                }
            }
            i = i + 1;
        }
        proof {
            assert(signatures@.subrange(0, n as int) =~= signatures@);
        }
        Ok(verified)
    }
}

/// Where the prefix up to `i` is clean and entry `i` is malformed, the whole
/// list's first malformed entry is `i`.
proof fn lemma_first_malformed_prefix(sigs: Seq<(String, String)>, i: int, keys: Seq<(String, String)>, message: Seq<char>)
    requires
        0 <= i < sigs.len(),
        first_malformed(sigs.subrange(0, i), keys, message) is None,
        is_malformed(check_entry(sigs[i], keys, message)),
    ensures
        first_malformed(sigs, keys, message) == Some(i as nat),
    decreases sigs.len() - i,
{
    lemma_scan_step(sigs, i, keys, message);
    lemma_first_malformed_extends(sigs, i + 1, keys, message);
}

/// A first malformed entry found in a prefix stays the first in the whole.
proof fn lemma_first_malformed_extends(sigs: Seq<(String, String)>, j: int, keys: Seq<(String, String)>, message: Seq<char>)
    requires
        0 <= j <= sigs.len(),
        first_malformed(sigs.subrange(0, j), keys, message) is Some,
    ensures
        first_malformed(sigs, keys, message) == first_malformed(sigs.subrange(0, j), keys, message),
    decreases sigs.len() - j,
{
    if j < sigs.len() {
        lemma_scan_step(sigs, j, keys, message);
        lemma_first_malformed_extends(sigs, j + 1, keys, message);
    } else {
        assert(sigs.subrange(0, j) =~= sigs);
    }
}

/// Adding a signature never takes a verifying signer away: with no
/// malformed entry, the signers that verify for a longer list include, in
/// order, those that verify for the shorter one, and there are never more
/// than the entries given.
pub proof fn lemma_signers_grow(sigs: Seq<(String, String)>, e: (String, String), keys: Seq<(String, String)>, message: Seq<char>)
    ensures
        valid_signers(sigs, keys, message).is_prefix_of(valid_signers(sigs.push(e), keys, message)),
        valid_signers(sigs.push(e), keys, message).len() <= sigs.len() + 1,
        first_malformed(sigs, keys, message) is Some ==> first_malformed(sigs.push(e), keys, message) == first_malformed(sigs, keys, message),
{
    let s2 = sigs.push(e);
    assert(s2.drop_last() =~= sigs);
    lemma_valid_len(s2, keys, message);
}

} // verus!
