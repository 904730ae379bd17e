//! The error type shared by the governance modules.

use vstd::prelude::*;
use vstd::string::*;
use crate::text::{dec_int, dec_nat, i64_to_string, u64_to_string};

verus! {

/// Errors raised by governance operations; each carries a message.
#[derive(Debug, Clone)]
pub enum GovernanceError {
    ConfigError(String),
    DatabaseError(String),
    GitHubError(String),
    ValidationError(String),
    CryptoError(String),
    WebhookError(String),
    SignatureError(String),
    ReviewPeriodError(String),
    ThresholdError(String),
    BuildError(String),
}

/// Arguments of an insufficient-signatures error.
pub struct InsufficientSignaturesArgs {
    pub required: usize,
    pub found: usize,
    pub threshold: String,
}

/// Arguments of a maximum-extensions error.
pub struct MaxExtensionsReachedArgs {
    pub current: u32,
    pub max: u32,
}

/// The message of an error together with the label of its kind.
pub open spec fn error_text(e: GovernanceError) -> Seq<char> {
    match e {
        GovernanceError::ConfigError(m) => "Configuration error: "@ + m@,
        GovernanceError::DatabaseError(m) => "Database error: "@ + m@,
        GovernanceError::GitHubError(m) => "GitHub API error: "@ + m@,
        GovernanceError::ValidationError(m) => "Validation error: "@ + m@,
        GovernanceError::CryptoError(m) => "Cryptographic error: "@ + m@,
        GovernanceError::WebhookError(m) => "Webhook processing error: "@ + m@,
        GovernanceError::SignatureError(m) => "Signature verification failed: "@ + m@,
        GovernanceError::ReviewPeriodError(m) => "Review period not met: "@ + m@,
        GovernanceError::ThresholdError(m) => "Threshold not satisfied: "@ + m@,
        GovernanceError::BuildError(m) => "Build orchestration error: "@ + m@,
    }
}

/// A validation error with the given message.
pub open spec fn is_validation(e: GovernanceError, msg: Seq<char>) -> bool {
    e matches GovernanceError::ValidationError(m) && m@ == msg
}

fn prefixed(label: &str, m: &String) -> (r: String)
    ensures
        r@ == label@ + m@,
{
    let mut s = String::from_str(label);
    s.append(m.as_str());
    s
}

impl GovernanceError {
    /// Human-readable text of the error.
    pub fn to_string(&self) -> (r: String)
        ensures
            r@ == error_text(*self),
    {
        match self {
            GovernanceError::ConfigError(m) => prefixed("Configuration error: ", m),
            GovernanceError::DatabaseError(m) => prefixed("Database error: ", m),
            GovernanceError::GitHubError(m) => prefixed("GitHub API error: ", m),
            GovernanceError::ValidationError(m) => prefixed("Validation error: ", m),
            GovernanceError::CryptoError(m) => prefixed("Cryptographic error: ", m),
            GovernanceError::WebhookError(m) => prefixed("Webhook processing error: ", m),
            GovernanceError::SignatureError(m) => prefixed("Signature verification failed: ", m),
            GovernanceError::ReviewPeriodError(m) => prefixed("Review period not met: ", m),
            GovernanceError::ThresholdError(m) => prefixed("Threshold not satisfied: ", m),
            GovernanceError::BuildError(m) => prefixed("Build orchestration error: ", m),
        }
    }

    /// An emergency tier outside 1..=3 was requested.
    pub fn invalid_emergency_tier(tier: i32) -> (r: Self)
        ensures
            is_validation(r, "Invalid emergency tier: "@ + dec_int(tier as int) + ". Must be 1, 2, or 3"@),
    {
        let mut s = String::from_str("Invalid emergency tier: ");
        let t = i64_to_string(tier as i64);
        s.append(t.as_str());
        s.append(". Must be 1, 2, or 3");
        GovernanceError::ValidationError(s)
    }

    /// Evidence shorter than the required 100 characters.
    pub fn insufficient_evidence(length: usize) -> (r: Self)
        ensures
            is_validation(r, "Insufficient evidence: "@ + dec_nat(length as nat) + " characters (minimum 100 required)"@),
    {
        let mut s = String::from_str("Insufficient evidence: ");
        let t = u64_to_string(length as u64);
        s.append(t.as_str());
        s.append(" characters (minimum 100 required)");
        GovernanceError::ValidationError(s)
    }

    /// Fewer valid signatures than the threshold requires.
    pub fn insufficient_signatures(required: usize, found: usize, threshold: String) -> (r: Self)
        ensures
            is_validation(r, "Insufficient signatures: found "@ + dec_nat(found as nat) + ", required "@
                + dec_nat(required as nat) + " (threshold: "@ + threshold@ + ")"@),
    {
        let mut s = String::from_str("Insufficient signatures: found ");
        let f = u64_to_string(found as u64);
        s.append(f.as_str());
        s.append(", required ");
        let q = u64_to_string(required as u64);
        s.append(q.as_str());
        s.append(" (threshold: ");
        s.append(threshold.as_str());
        s.append(")");
        GovernanceError::ValidationError(s)
    }

    /// A signature failed to verify.
    pub fn invalid_signature(msg: String) -> (r: Self)
        ensures
            r == GovernanceError::SignatureError(msg),
    {
        GovernanceError::SignatureError(msg)
    }

    /// The tier does not allow extensions.
    pub fn extension_not_allowed(tier: String) -> (r: Self)
        ensures
            is_validation(r, "Extensions not allowed for tier: "@ + tier@),
    {
        let mut s = String::from_str("Extensions not allowed for tier: ");
        s.append(tier.as_str());
        GovernanceError::ValidationError(s)
    }

    /// All permitted extensions are used.
    pub fn max_extensions_reached(current: u32, max: u32) -> (r: Self)
        ensures
            is_validation(r, "Maximum extensions reached: "@ + dec_nat(current as nat) + " of "@
                + dec_nat(max as nat) + " used"@),
    {
        let mut s = String::from_str("Maximum extensions reached: ");
        let c = u64_to_string(current as u64);
        s.append(c.as_str());
        s.append(" of ");
        let m = u64_to_string(max as u64);
        s.append(m.as_str());
        s.append(" used");
        GovernanceError::ValidationError(s)
    }

    /// The emergency tier has run out.
    pub fn emergency_expired(id: i32) -> (r: Self)
        ensures
            is_validation(r, "Emergency tier "@ + dec_int(id as int) + " has expired"@),
    {
        let mut s = String::from_str("Emergency tier ");
        let t = i64_to_string(id as i64);
        s.append(t.as_str());
        s.append(" has expired");
        GovernanceError::ValidationError(s)
    }
}

#[allow(non_snake_case)]
impl GovernanceError {
    /// Same as `invalid_emergency_tier`.
    pub fn InvalidEmergencyTier(tier: i32) -> (r: Self)
        ensures
            is_validation(r, "Invalid emergency tier: "@ + dec_int(tier as int) + ". Must be 1, 2, or 3"@),
    {
        Self::invalid_emergency_tier(tier)
    }

    /// Same as `insufficient_evidence`.
    pub fn InsufficientEvidence(length: usize) -> (r: Self)
        ensures
            is_validation(r, "Insufficient evidence: "@ + dec_nat(length as nat) + " characters (minimum 100 required)"@),
    {
        Self::insufficient_evidence(length)
    }

    /// Same as `insufficient_signatures`, with the arguments bundled.
    pub fn InsufficientSignatures(args: InsufficientSignaturesArgs) -> (r: Self)
        ensures
            is_validation(r, "Insufficient signatures: found "@ + dec_nat(args.found as nat) + ", required "@
                + dec_nat(args.required as nat) + " (threshold: "@ + args.threshold@ + ")"@),
    {
        Self::insufficient_signatures(args.required, args.found, args.threshold)
    }

    /// Same as `invalid_signature`.
    pub fn InvalidSignature(msg: String) -> (r: Self)
        ensures
            r == GovernanceError::SignatureError(msg),
    {
        Self::invalid_signature(msg)
    }

    /// Same as `extension_not_allowed`.
    pub fn ExtensionNotAllowed(tier: String) -> (r: Self)
        ensures
            is_validation(r, "Extensions not allowed for tier: "@ + tier@),
    {
        Self::extension_not_allowed(tier)
    }

    /// Same as `max_extensions_reached`, with the arguments bundled.
    pub fn MaxExtensionsReached(args: MaxExtensionsReachedArgs) -> (r: Self)
        ensures
            is_validation(r, "Maximum extensions reached: "@ + dec_nat(args.current as nat) + " of "@
                + dec_nat(args.max as nat) + " used"@),
    {
        Self::max_extensions_reached(args.current, args.max)
    }

    /// Same as `emergency_expired`.
    pub fn EmergencyExpired(id: i32) -> (r: Self)
        ensures
            is_validation(r, "Emergency tier "@ + dec_int(id as int) + " has expired"@),
    {
        Self::emergency_expired(id)
    }
}

} // verus!
