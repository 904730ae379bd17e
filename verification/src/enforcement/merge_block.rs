//! The merge decision: which governance requirements block a merge, why,
//! and the status texts posted for it.

use vstd::prelude::*;
use vstd::string::*;
use crate::error::GovernanceError;
use crate::text::{dec_int, dec_nat, i64_to_string, u64_to_string};

verus! {

/// Whether a merge is blocked: in emergency mode only the signature
/// threshold counts; otherwise an active economic veto blocks tier 3 and
/// above, and both the review period and the signatures must be met.
pub open spec fn blocks_merge(review_period_met: bool, signatures_met: bool, economic_veto_active: bool, tier: u32, emergency_mode: bool) -> bool {
    if emergency_mode {
        !signatures_met
    } else if tier >= 3 && economic_veto_active {
        true
    } else {
        !(review_period_met && signatures_met)
    }
}

/// The unmet requirements, in a fixed order.
pub open spec fn unmet_reasons(review_period_met: bool, signatures_met: bool, economic_veto_active: bool, tier: u32) -> Seq<Seq<char>> {
    let a: Seq<Seq<char>> = if !review_period_met { seq!["Review period requirement not met"@] } else { Seq::empty() };
    let b: Seq<Seq<char>> = if !signatures_met { a.push("Signature threshold requirement not met"@) } else { a };
    if tier >= 3 && economic_veto_active {
        b.push("Economic node veto active (30%+ hashpower or 40%+ economic activity)"@)
    } else {
        b
    }
}

/// The parts joined by `, `.
pub open spec fn join_comma(parts: Seq<Seq<char>>) -> Seq<char>
    decreases parts.len(),
{
    if parts.len() == 0 {
        Seq::empty()
    } else if parts.len() == 1 {
        parts[0]
    } else {
        join_comma(parts.drop_last()) + ", "@ + parts.last()
    }
}

/// The reason given for the merge decision.
pub open spec fn block_reason(review_period_met: bool, signatures_met: bool, economic_veto_active: bool, tier: u32, emergency_mode: bool) -> Seq<char> {
    if emergency_mode {
        if !signatures_met {
            "Emergency mode: Signature threshold not met"@
        } else {
            "Emergency mode: All requirements met"@
        }
    } else {
        let reasons = unmet_reasons(review_period_met, signatures_met, economic_veto_active, tier);
        if reasons.len() == 0 {
            "All governance requirements met"@
        } else {
            "Governance requirements not met: "@ + join_comma(reasons)
        }
    }
}

/// Decides merges from governance requirements and reports on them.
pub struct MergeBlocker {
    /// Whether decisions are only reported, with a `[DRY-RUN] ` mark.
    pub dry_run_mode: bool,
}

impl MergeBlocker {
    /// A merge blocker.
    pub fn new(dry_run_mode: bool) -> (r: Self)
        ensures
            r.dry_run_mode == dry_run_mode,
    {
        MergeBlocker { dry_run_mode }
    }

    /// Whether the merge must be blocked.
    pub fn should_block_merge(review_period_met: bool, signatures_met: bool, economic_veto_active: bool, tier: u32, emergency_mode: bool) -> (r: Result<bool, GovernanceError>)
        ensures
            r == Ok::<bool, GovernanceError>(blocks_merge(review_period_met, signatures_met, economic_veto_active, tier, emergency_mode)),
            r == Ok::<bool, GovernanceError>(if emergency_mode {
                !signatures_met
            } else {
                (tier >= 3 && economic_veto_active) || !review_period_met || !signatures_met
            }),
    {
        if emergency_mode {
            Ok(!signatures_met)
        } else {
            let basic_requirements_met = review_period_met && signatures_met;
            if tier >= 3 && economic_veto_active {
                Ok(true)
            } else {
                Ok(!basic_requirements_met)
            }
        }
    }

    /// Why the merge is or is not blocked.
    pub fn get_block_reason(review_period_met: bool, signatures_met: bool, economic_veto_active: bool, tier: u32, emergency_mode: bool) -> (r: String)
        ensures
            r@ == block_reason(review_period_met, signatures_met, economic_veto_active, tier, emergency_mode),
    {
        if emergency_mode {
            if !signatures_met {
                String::from_str("Emergency mode: Signature threshold not met")
            } else {
                String::from_str("Emergency mode: All requirements met")
            }
        } else {
            let ghost reasons = unmet_reasons(review_period_met, signatures_met, economic_veto_active, tier);
            let mut text = String::new();
            let mut count: usize = 0;
            let ghost mut done: Seq<Seq<char>> = Seq::empty();
            if !review_period_met {
                text.append("Review period requirement not met");
                count = count + 1;
                proof {
                    done = done.push("Review period requirement not met"@);
                    assert(text@ =~= join_comma(done));
                }
            }
            proof {
                assert(text@ == join_comma(done));
                assert(done.len() == count);
            }
            if !signatures_met {
                if count > 0 {
                    text.append(", ");
                }
                text.append("Signature threshold requirement not met");
                count = count + 1;
                proof {
                    let prev = done;
                    done = done.push("Signature threshold requirement not met"@);
                    assert(done.drop_last() =~= prev);
                    if prev.len() == 0 {
                        assert(text@ =~= join_comma(done));
                    }
                }
            }
            proof {
                assert(text@ == join_comma(done));
                assert(done.len() == count);
            }
            if tier >= 3 && economic_veto_active {
                if count > 0 {
                    text.append(", ");
                }
                text.append("Economic node veto active (30%+ hashpower or 40%+ economic activity)");
                count = count + 1;
                proof {
                    let prev = done;
                    done = done.push("Economic node veto active (30%+ hashpower or 40%+ economic activity)"@);
                    assert(done.drop_last() =~= prev);
                    if prev.len() == 0 {
                        assert(text@ =~= join_comma(done));
                    }
                }
            }
            proof {
                assert(done =~= reasons);
            }
            if count == 0 {
                String::from_str("All governance requirements met")
            } else {
                let mut r = String::from_str("Governance requirements not met: ");
                r.append(text.as_str());
                r
            }
        }
    }

    /// The state and description of the merge status check posted for a
    /// decision.
    pub fn merge_status(&self, should_block: bool, reason: &str) -> (r: (String, String))
        ensures
            r.0@ == (if should_block { "failure"@ } else { "success"@ }),
            r.1@ == (if self.dry_run_mode { "[DRY-RUN] "@ } else { Seq::<char>::empty() })
                + (if should_block { "❌ Merge blocked: "@ + reason@ } else { "✅ Governance requirements met - merge allowed"@ }),
    {
        let state = if should_block { String::from_str("failure") } else { String::from_str("success") };
        let mut description = if self.dry_run_mode { String::from_str("[DRY-RUN] ") } else { String::new() };
        if should_block {
            description.append("❌ Merge blocked: ");
            description.append(reason);
        } else {
            description.append("✅ Governance requirements met - merge allowed");
        }
        (state, description)
    }

    /// The status checks a protected branch requires.
    pub fn required_check_contexts() -> (r: Vec<String>)
        ensures
            r@.len() == 3,
            r@[0]@ == "governance/merge-check"@,
            r@[1]@ == "governance/signatures"@,
            r@[2]@ == "governance/review-period"@,
    {
        let mut v: Vec<String> = Vec::new();
        v.push(String::from_str("governance/merge-check"));
        v.push(String::from_str("governance/signatures"));
        v.push(String::from_str("governance/review-period"));
        v
    }

    /// The full merge status message of a pull request.
    pub fn generate_merge_status_message(
        review_period_met: bool,
        signatures_met: bool,
        economic_veto_active: bool,
        tier: u32,
        tier_name: &str,
        emergency_mode: bool,
        review_period_days: i64,
        elapsed_days: i64,
        current_signatures: usize,
        required_signatures: usize,
    ) -> (r: String)
        ensures
            r@ == "🏛️ Governance Status for Tier "@ + dec_nat(tier as nat) + ": "@ + tier_name@ + "\n\n"@
                + review_line(review_period_met, review_period_days, elapsed_days)
                + signature_line(signatures_met, current_signatures, required_signatures)
                + veto_line(tier, economic_veto_active)
                + (if emergency_mode { "\n🚨 Emergency Mode Active\n"@ } else { Seq::<char>::empty() })
                + (if blocks_merge(review_period_met, signatures_met, economic_veto_active, tier, emergency_mode) {
                    "\n❌ Merge Blocked: Governance requirements not met"@
                } else {
                    "\n✅ Merge Allowed: All governance requirements met"@
                }),
    {
        let mut message = String::from_str("🏛️ Governance Status for Tier ");
        let t = u64_to_string(tier as u64);
        message.append(t.as_str());
        message.append(": ");
        message.append(tier_name);
        message.append("\n\n");
        let a = review_text(review_period_met, review_period_days, elapsed_days);
        message.append(a.as_str());
        let b = signature_text(signatures_met, current_signatures, required_signatures);
        message.append(b.as_str());
        let c = veto_text(tier, economic_veto_active);
        message.append(c.as_str());
        let d = if emergency_mode { String::from_str("\n🚨 Emergency Mode Active\n") } else { String::new() };
        message.append(d.as_str());
        let should_block = match Self::should_block_merge(review_period_met, signatures_met, economic_veto_active, tier, emergency_mode) {
            Ok(b) => b,
            Err(_) => true,
        };
        if should_block {
            message.append("\n❌ Merge Blocked: Governance requirements not met");
        } else {
            message.append("\n✅ Merge Allowed: All governance requirements met");
        }
        message
    }
}

/// The review-period line of the merge status message.
pub open spec fn review_line(met: bool, required_days: i64, elapsed_days: i64) -> Seq<char> {
    if met {
        "✅ Review Period: Met\n"@
    } else {
        "❌ Review Period: "@ + dec_int(elapsed_days as int) + " days elapsed, "@ + dec_int(required_days as int)
            + " days required\n"@
    }
}

fn review_text(met: bool, required_days: i64, elapsed_days: i64) -> (r: String)
    ensures
        r@ == review_line(met, required_days, elapsed_days),
{
    if met {
        String::from_str("✅ Review Period: Met\n")
    } else {
        let mut m = String::from_str("❌ Review Period: ");
        let e = i64_to_string(elapsed_days);
        m.append(e.as_str());
        m.append(" days elapsed, ");
        let d = i64_to_string(required_days);
        m.append(d.as_str());
        m.append(" days required\n");
        m
    }
}

/// The signature line of the merge status message.
pub open spec fn signature_line(met: bool, current: usize, required: usize) -> Seq<char> {
    if met {
        "✅ Signatures: Complete\n"@
    } else {
        "❌ Signatures: "@ + dec_nat(current as nat) + "/"@ + dec_nat(required as nat) + " required\n"@
    }
}

fn signature_text(met: bool, current: usize, required: usize) -> (r: String)
    ensures
        r@ == signature_line(met, current, required),
{
    if met {
        String::from_str("✅ Signatures: Complete\n")
    } else {
        let mut m = String::from_str("❌ Signatures: ");
        let c = u64_to_string(current as u64);
        m.append(c.as_str());
        m.append("/");
        let q = u64_to_string(required as u64);
        m.append(q.as_str());
        m.append(" required\n");
        m
    }
}

/// The economic-veto line, shown from tier 3 up.
pub open spec fn veto_line(tier: u32, active: bool) -> Seq<char> {
    if tier >= 3 {
        if active { "⚠️ Economic Node Veto: Active\n"@ } else { "✅ Economic Node Veto: Not Active\n"@ }
    } else {
        Seq::<char>::empty()
    }
}

fn veto_text(tier: u32, active: bool) -> (r: String)
    ensures
        r@ == veto_line(tier, active),
{
    if tier >= 3 {
        if active {
            String::from_str("⚠️ Economic Node Veto: Active\n")
        } else {
            String::from_str("✅ Economic Node Veto: Not Active\n")
        }
    } else {
        String::new()
    }
}

/// Emergency mode decides by signatures alone, and outside it an active
/// economic veto blocks every pull request of tier 3 or above.
pub proof fn lemma_merge_decision(review_period_met: bool, signatures_met: bool, economic_veto_active: bool, tier: u32, emergency_mode: bool)
    ensures
        emergency_mode ==> blocks_merge(review_period_met, signatures_met, economic_veto_active, tier, emergency_mode) == !signatures_met,
        (!emergency_mode && tier >= 3 && economic_veto_active) ==> blocks_merge(review_period_met, signatures_met, economic_veto_active, tier, emergency_mode),
        (!emergency_mode && !review_period_met) ==> blocks_merge(review_period_met, signatures_met, economic_veto_active, tier, emergency_mode),
        !signatures_met ==> blocks_merge(review_period_met, signatures_met, economic_veto_active, tier, emergency_mode),
        (!emergency_mode && review_period_met && signatures_met && !(tier >= 3 && economic_veto_active))
            ==> !blocks_merge(review_period_met, signatures_met, economic_veto_active, tier, emergency_mode),
        !blocks_merge(review_period_met, signatures_met, economic_veto_active, tier, emergency_mode)
            <==> (block_reason(review_period_met, signatures_met, economic_veto_active, tier, emergency_mode)
                == (if emergency_mode { "Emergency mode: All requirements met"@ } else { "All governance requirements met"@ })),
{
    reveal_strlit("Emergency mode: All requirements met");
    reveal_strlit("Emergency mode: Signature threshold not met");
    reveal_strlit("All governance requirements met");
    reveal_strlit("Governance requirements not met: ");
    let reasons = unmet_reasons(review_period_met, signatures_met, economic_veto_active, tier);
    if !emergency_mode && reasons.len() > 0 {
        let t = "Governance requirements not met: "@ + join_comma(reasons);
        assert(t[0] == 'G');
        assert(t.len() != "All governance requirements met"@.len() || t[0] != "All governance requirements met"@[0]);
    }
    if emergency_mode {
        assert("Emergency mode: All requirements met"@[16] != "Emergency mode: Signature threshold not met"@[16]);
    }
}

} // verus!
