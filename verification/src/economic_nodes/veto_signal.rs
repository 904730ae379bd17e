//! Admitting a veto signal that an economic node sends about a pull
//! request: the node must be active, its signature over the signal message
//! must verify under its registered key, and it may signal once per pull
//! request.

use vstd::prelude::*;
use vstd::string::*;
use crate::crypto::signatures::{message_digest, spec_ecdsa_verify, spec_parse_public_key, spec_parse_signature, SignatureManager};
use crate::error::GovernanceError;
use crate::text::{dec_int, i64_to_string};

verus! {

/// The message a node signs to signal about pull request `pr_id`.
pub open spec fn veto_signal_text(pr_id: i32, entity_name: Seq<char>) -> Seq<char> {
    "PR #"@ + dec_int(pr_id as int) + " veto signal from "@ + entity_name
}

/// The message a node signs to signal about pull request `pr_id`:
/// `PR #<id> veto signal from <entity>`.
pub fn veto_signal_message(pr_id: i32, entity_name: &str) -> (r: String)
    ensures
        r@ == veto_signal_text(pr_id, entity_name@),
{
    let mut s = String::from_str("PR #");
    let n = i64_to_string(pr_id as i64);
    s.append(n.as_str());
    s.append(" veto signal from ");
    s.append(entity_name);
    proof {
        reveal_strlit("PR #");
        reveal_strlit(" veto signal from ");
    }
    s
}

/// The error with this message.
pub open spec fn is_crypto_error(r: Result<(), GovernanceError>, m: Seq<char>) -> bool {
    r matches Err(GovernanceError::CryptoError(e)) && e@ == m
}

/// Decides whether a node's signal on pull request `pr_id` is admitted,
/// checking in order: the node is active (`node_active`); its signature
/// (hex DER) and key (hex) parse, the parser's message being the error
/// otherwise; the signature verifies over the signal message; and the node
/// has not signalled on this pull request before (`already_signaled`).
pub fn veto_signal_decision(pr_id: i32, node_active: bool, entity_name: &str, public_key: &str, signature: &str,
    already_signaled: bool) -> (r: Result<(), GovernanceError>)
    ensures
        !node_active ==> is_crypto_error(r, "Node is not active"@),
        node_active && (spec_parse_signature(signature@) is None || spec_parse_public_key(public_key@) is None)
            ==> r matches Err(GovernanceError::CryptoError(_)),
        node_active && spec_parse_signature(signature@) is Some && spec_parse_public_key(public_key@) is Some ==> ({
            let verified = spec_ecdsa_verify(message_digest(veto_signal_text(pr_id, entity_name@)),
                spec_parse_signature(signature@)->0, spec_parse_public_key(public_key@)->0);
            if !verified {
                is_crypto_error(r, "Invalid signature"@)
            } else if already_signaled {
                is_crypto_error(r, "Node already submitted signal for this PR"@)
            } else {
                r is Ok
            }
        }),
{
    if !node_active {
        return Err(GovernanceError::CryptoError(String::from_str("Node is not active")));
    }
    let manager = SignatureManager::new();
    let message = veto_signal_message(pr_id, entity_name);
    let verified = match manager.verify_governance_signature(message.as_str(), signature, public_key) {
        Ok(b) => b,
        Err(e) => return Err(GovernanceError::CryptoError(e)),
    };
    if !verified {
        return Err(GovernanceError::CryptoError(String::from_str("Invalid signature")));
    }
    if already_signaled {
        return Err(GovernanceError::CryptoError(String::from_str("Node already submitted signal for this PR")));
    }
    Ok(())
}

} // verus!
