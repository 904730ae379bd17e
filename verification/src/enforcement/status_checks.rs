//! The texts of the governance status checks posted on pull requests:
//! signatures, combined requirements, tier classification, and active
//! emergencies with their expiry warnings.

use vstd::prelude::*;
use vstd::string::*;
use crate::clock::{format_utc, spec_format_utc};
use crate::enforcement::emergency::{days_left, extendable, hours_left, ActiveEmergency, EmergencyTier, dates_in_range};
use crate::text::{dec_int, dec_nat, i64_to_string, join, join_strings, u64_to_string, views};

verus! {

/// The `[DRY-RUN] ` mark, where a check is only reported.
pub open spec fn dry_run_prefix(dry_run: bool) -> Seq<char> {
    if dry_run { "[DRY-RUN] "@ } else { Seq::<char>::empty() }
}

/// The text of an unmet signature threshold: who signed and who is pending.
pub open spec fn threshold_text(current: usize, required: usize, total: usize, signers: Seq<Seq<char>>, pending: Seq<Seq<char>>) -> Seq<char> {
    "❌ Governance: Signatures Missing\nRequired: "@ + dec_nat(required as nat) + "-of-"@ + dec_nat(total as nat)
        + " | Current: "@ + dec_nat(current as nat) + "-of-"@ + dec_nat(total as nat)
        + "\nSigned by: "@ + join(signers, ", "@) + "\nPending: "@ + join(pending, ", "@)
}

/// The signature status text.
pub open spec fn signature_status_text(current: usize, required: usize, total: usize, signers: Seq<Seq<char>>, pending: Seq<Seq<char>>, dry_run: bool) -> Seq<char> {
    dry_run_prefix(dry_run) + if current >= required {
        "✅ Governance: Signatures Complete"@
    } else {
        threshold_text(current, required, total, signers, pending)
    }
}

/// The status when review period and signatures are both met, or the two
/// partial statuses when not.
pub open spec fn combined_text(review_period_met: bool, signatures_met: bool, review_period_status: Seq<char>, signature_status: Seq<char>) -> Seq<char> {
    if review_period_met && signatures_met {
        "✅ Governance: All Requirements Met - Ready to Merge"@
    } else {
        "❌ Governance: Requirements Not Met\n\n"@ + review_period_status + "\n\n"@ + signature_status
    }
}

/// The combined status says a pull request is ready to merge exactly when
/// both the review period and the signatures are met; otherwise it says the
/// requirements are not met and gives both statuses.
pub proof fn lemma_combined_ready_iff_both_met(review_period_met: bool, signatures_met: bool,
    review_period_status: Seq<char>, signature_status: Seq<char>)
    ensures
        (combined_text(review_period_met, signatures_met, review_period_status, signature_status)
            == "✅ Governance: All Requirements Met - Ready to Merge"@) <==> (review_period_met && signatures_met),
        !(review_period_met && signatures_met) ==> combined_text(review_period_met, signatures_met,
            review_period_status, signature_status) == "❌ Governance: Requirements Not Met\n\n"@
            + review_period_status + "\n\n"@ + signature_status,
{
    reveal_strlit("✅ Governance: All Requirements Met - Ready to Merge");
    reveal_strlit("❌ Governance: Requirements Not Met\n\n");
    if !(review_period_met && signatures_met) {
        let t = combined_text(review_period_met, signatures_met, review_period_status, signature_status);
        assert(t[0] == "❌ Governance: Requirements Not Met\n\n"@[0]);
        assert(t[0] != "✅ Governance: All Requirements Met - Ready to Merge"@[0]);
    }
}

/// The signature status says the signatures are complete exactly when the
/// current count reaches the required count.
pub proof fn lemma_signatures_complete_iff(current: usize, required: usize, total: usize, signers: Seq<Seq<char>>,
    pending: Seq<Seq<char>>, dry_run: bool)
    ensures
        (signature_status_text(current, required, total, signers, pending, dry_run)
            == dry_run_prefix(dry_run) + "✅ Governance: Signatures Complete"@) <==> current >= required,
{
    reveal_strlit("✅ Governance: Signatures Complete");
    reveal_strlit("❌ Governance: Signatures Missing\nRequired: ");
    if current < required {
        let p = dry_run_prefix(dry_run);
        let t = signature_status_text(current, required, total, signers, pending, dry_run);
        let m = threshold_text(current, required, total, signers, pending);
        assert(t == p + m);
        assert(m[0] == "❌ Governance: Signatures Missing\nRequired: "@[0]);
        assert(t[p.len() as int] == m[0]);
        let c = p + "✅ Governance: Signatures Complete"@;
        assert(c[p.len() as int] == "✅ Governance: Signatures Complete"@[0]);
    }
}

/// The emoji of a tier.
pub open spec fn tier_emoji(tier: u32) -> Seq<char> {
    if tier == 1 {
        "🔧"@
    } else if tier == 2 {
        "✨"@
    } else if tier == 3 {
        "⚡"@
    } else if tier == 4 {
        "🚨"@
    } else if tier == 5 {
        "🏛️"@
    } else {
        "❓"@
    }
}

/// The tier status text.
pub open spec fn tier_text(tier: u32, tier_name: Seq<char>, review_period_met: bool, signatures_met: bool, veto: bool, review_period_status: Seq<char>, signature_status: Seq<char>) -> Seq<char> {
    let vetoed = veto && tier >= 3;
    tier_emoji(tier) + " Tier "@ + dec_nat(tier as nat) + ": "@ + tier_name + "\n"@
        + (if vetoed { "⚠️ Economic Node Veto Active\n"@ } else { Seq::<char>::empty() })
        + if review_period_met && signatures_met && !veto {
            "✅ Governance: All Requirements Met - Ready to Merge"@
        } else {
            "❌ Governance: Requirements Not Met\n"@ + "\n"@ + review_period_status + "\n\n"@ + signature_status
                + if vetoed {
                    "\n\n⚠️ Economic Node Veto: 30%+ hashpower or 40%+ economic activity has vetoed this change"@
                } else {
                    Seq::<char>::empty()
                }
        }
}

/// The text of an active emergency at `now`.
pub open spec fn emergency_text(e: ActiveEmergency, now: i64) -> Seq<char> {
    let t = e.tier;
    let expiration = if hours_left(e, now) < 24 {
        "⏰ Expires in "@ + dec_int(hours_left(e, now)) + " hours"@
    } else {
        "Expires in "@ + dec_int(days_left(e, now)) + " days"@
    };
    let extension = if extendable(e) {
        "\n📋 Extensions: "@ + dec_nat(e.extension_count as nat) + " of "@ + dec_nat(t.max_extensions as nat)
            + " used (can extend by "@ + dec_nat(t.extension_duration_days as nat) + " days)"@
    } else if t.allows_extensions && e.extension_count >= t.max_extensions {
        "\n⚠️ Maximum extensions reached"@
    } else {
        "\n🚫 Extensions not allowed for this tier"@
    };
    t.emoji@ + " Emergency Tier Active: "@ + t.name@ + "\n📊 Requirements: "@ + dec_nat(t.signatures_required as nat)
        + "-of-"@ + dec_nat(t.signatures_total as nat) + " signatures, "@ + dec_nat(t.review_period_days as nat)
        + " day review period\n"@ + expiration + extension + "\n\nReason: "@ + e.reason@ + "\nActivated by: "@
        + e.activated_by@ + " on "@ + spec_format_utc(e.activated_at as int, "%Y-%m-%d %H:%M UTC"@)
}

/// The expiry warning of an active emergency at `now`: within a day it says
/// whether an extension is possible, within three days how many remain,
/// otherwise nothing.
pub open spec fn expiration_warning_text(e: ActiveEmergency, now: i64) -> Seq<char> {
    let expires = spec_format_utc(e.expires_at as int, "%Y-%m-%d %H:%M UTC"@);
    if hours_left(e, now) < 24 {
        "⚠️ "@ + e.tier.emoji@ + " Emergency Tier Expiring Soon\n⏰ Less than 24 hours remaining\nExpires at: "@ + expires
            + "\n\n"@ + if extendable(e) {
                "Extension available: requires "@ + dec_nat(e.tier.extension_signatures_required as nat) + "-of-"@
                    + dec_nat(e.tier.extension_signatures_total as nat) + " signatures"@
            } else {
                "Extensions not available for this tier"@
            }
    } else if days_left(e, now) < 3 {
        "⚠️ "@ + e.tier.emoji@ + " Emergency Tier Expiring Soon\n⏰ "@ + dec_int(days_left(e, now)) + " days remaining\nExpires at: "@
            + expires
    } else {
        Seq::<char>::empty()
    }
}

fn concat3(a: &str, b: &str, c: &str) -> (r: String)
    ensures
        r@ == a@ + b@ + c@,
{
    let mut s = String::from_str(a);
    s.append(b);
    s.append(c);
    s
}

fn nat_text(n: u64) -> (r: String)
    ensures
        r@ == dec_nat(n as nat),
{
    u64_to_string(n)
}

fn date_text(ts: i64) -> (r: String)
    requires
        crate::clock::in_date_range(ts as int),
    ensures
        r@ == spec_format_utc(ts as int, "%Y-%m-%d %H:%M UTC"@),
{
    proof {
        reveal_strlit("%Y-%m-%d %H:%M UTC");
    }
    match format_utc(ts, "%Y-%m-%d %H:%M UTC") {
        Some(s) => s,
        None => String::new(),
    }
}

fn day_text(ts: i64) -> (r: String)
    requires
        crate::clock::in_date_range(ts as int),
    ensures
        r@ == spec_format_utc(ts as int, "%Y-%m-%d"@),
{
    proof {
        reveal_strlit("%Y-%m-%d");
    }
    match format_utc(ts, "%Y-%m-%d") {
        Some(s) => s,
        None => String::new(),
    }
}

/// The state of the post-mortem at `now`: published, overdue, due within a
/// week, or pending.
pub open spec fn post_mortem_line(published: bool, deadline: i64, now: i64) -> Seq<char> {
    if published {
        "✅ Post-mortem published"@
    } else if now > deadline {
        "❌ Post-mortem OVERDUE"@
    } else if (deadline - now) / 86400 < 7 {
        "⚠️ Post-mortem due soon"@
    } else {
        "⏳ Post-mortem pending"@
    }
}

/// The state of the security audit at `now`: completed, overdue, due
/// within two weeks, or pending.
pub open spec fn audit_line(completed: bool, deadline: i64, now: i64) -> Seq<char> {
    if completed {
        "✅ Security audit completed"@
    } else if now > deadline {
        "❌ Security audit OVERDUE"@
    } else if (deadline - now) / 86400 < 14 {
        "⚠️ Security audit due soon"@
    } else {
        "⏳ Security audit pending"@
    }
}

/// The post-emergency requirements text: the post-mortem with its deadline,
/// and, where the tier requires an audit and it has a deadline, the audit
/// with its deadline.
pub open spec fn post_emergency_text(tier: EmergencyTier, post_mortem_published: bool, post_mortem_deadline: i64,
    security_audit_completed: bool, security_audit_deadline: Option<i64>, now: i64) -> Seq<char> {
    "📋 Post-Emergency Requirements for "@ + tier.name@ + "\n\n"@
        + post_mortem_line(post_mortem_published, post_mortem_deadline, now)
        + "\nDeadline: "@ + spec_format_utc(post_mortem_deadline as int, "%Y-%m-%d"@) + "\n"@
        + match security_audit_deadline {
            Some(d) => if tier.requires_security_audit {
                "\n"@ + audit_line(security_audit_completed, d, now) + "\nDeadline: "@ + spec_format_utc(d as int, "%Y-%m-%d"@)
            } else {
                Seq::<char>::empty()
            },
            None => Seq::<char>::empty(),
        }
}

/// Generates the texts of governance status checks.
pub struct StatusCheckGenerator;

impl StatusCheckGenerator {
    /// The text of an unmet signature threshold.
    pub fn format_threshold_status(current_signatures: usize, required_signatures: usize, total_maintainers: usize, signers: &[String], pending: &[String]) -> (r: String)
        ensures
            r@ == threshold_text(current_signatures, required_signatures, total_maintainers, views(signers@), views(pending@)),
    {
        let mut s = String::from_str("❌ Governance: Signatures Missing\nRequired: ");
        let a = nat_text(required_signatures as u64);
        s.append(a.as_str());
        s.append("-of-");
        let b = nat_text(total_maintainers as u64);
        s.append(b.as_str());
        s.append(" | Current: ");
        let c = nat_text(current_signatures as u64);
        s.append(c.as_str());
        s.append("-of-");
        s.append(b.as_str());
        s.append("\nSigned by: ");
        let j = join_strings(signers, ", ");
        s.append(j.as_str());
        s.append("\nPending: ");
        let k = join_strings(pending, ", ");
        s.append(k.as_str());
        s
    }

    /// The signature status.
    pub fn generate_signature_status(current_signatures: usize, required_signatures: usize, total_maintainers: usize, signers: &[String], pending: &[String]) -> (r: String)
        ensures
            r@ == signature_status_text(current_signatures, required_signatures, total_maintainers, views(signers@), views(pending@), false),
    {
        Self::generate_signature_status_with_dry_run(current_signatures, required_signatures, total_maintainers, signers, pending, false)
    }

    /// The signature status, marked when only reported.
    pub fn generate_signature_status_with_dry_run(current_signatures: usize, required_signatures: usize, total_maintainers: usize, signers: &[String], pending: &[String], dry_run: bool) -> (r: String)
        ensures
            r@ == signature_status_text(current_signatures, required_signatures, total_maintainers, views(signers@), views(pending@), dry_run),
            current_signatures >= required_signatures ==> r@ == (if dry_run { "[DRY-RUN] "@ } else { Seq::<char>::empty() })
                + "✅ Governance: Signatures Complete"@,
            current_signatures < required_signatures ==> r@ == (if dry_run { "[DRY-RUN] "@ } else { Seq::<char>::empty() })
                + threshold_text(current_signatures, required_signatures, total_maintainers, views(signers@), views(pending@)),
    {
        let mut s = if dry_run { String::from_str("[DRY-RUN] ") } else { String::new() };
        if current_signatures >= required_signatures {
            s.append("✅ Governance: Signatures Complete");
        } else {
            let t = Self::format_threshold_status(current_signatures, required_signatures, total_maintainers, signers, pending);
            s.append(t.as_str());
        }
        s
    }

    /// The combined status of review period and signatures.
    pub fn generate_combined_status(review_period_met: bool, signatures_met: bool, review_period_status: &str, signature_status: &str) -> (r: String)
        ensures
            r@ == combined_text(review_period_met, signatures_met, review_period_status@, signature_status@),
            review_period_met && signatures_met ==> r@ == "✅ Governance: All Requirements Met - Ready to Merge"@,
            !(review_period_met && signatures_met) ==> r@ == "❌ Governance: Requirements Not Met\n\n"@
                + review_period_status@ + "\n\n"@ + signature_status@,
    {
        if review_period_met && signatures_met {
            String::from_str("✅ Governance: All Requirements Met - Ready to Merge")
        } else {
            let mut s = concat3("❌ Governance: Requirements Not Met\n\n", review_period_status, "\n\n");
            s.append(signature_status);
            s
        }
    }

    fn emoji_for(tier: u32) -> (r: &'static str)
        ensures
            r@ == tier_emoji(tier),
    {
        if tier == 1 {
            "🔧"
        } else if tier == 2 {
            "✨"
        } else if tier == 3 {
            "⚡"
        } else if tier == 4 {
            "🚨"
        } else if tier == 5 {
            "🏛️"
        } else {
            "❓"
        }
    }

    /// The status with tier classification and economic veto.
    pub fn generate_tier_status(tier: u32, tier_name: &str, review_period_met: bool, signatures_met: bool, economic_veto_active: bool, review_period_status: &str, signature_status: &str) -> (r: String)
        ensures
            r@ == tier_text(tier, tier_name@, review_period_met, signatures_met, economic_veto_active, review_period_status@, signature_status@),
            review_period_met && signatures_met && !economic_veto_active ==> r@ == tier_emoji(tier) + " Tier "@
                + dec_nat(tier as nat) + ": "@ + tier_name@ + "\n"@ + "✅ Governance: All Requirements Met - Ready to Merge"@,
            !(review_period_met && signatures_met && !economic_veto_active) ==> r@ == tier_emoji(tier) + " Tier "@
                + dec_nat(tier as nat) + ": "@ + tier_name@ + "\n"@
                + (if economic_veto_active && tier >= 3 { "⚠️ Economic Node Veto Active\n"@ } else { Seq::<char>::empty() })
                + "❌ Governance: Requirements Not Met\n"@ + "\n"@ + review_period_status@ + "\n\n"@ + signature_status@
                + (if economic_veto_active && tier >= 3 {
                    "\n\n⚠️ Economic Node Veto: 30%+ hashpower or 40%+ economic activity has vetoed this change"@
                } else {
                    Seq::<char>::empty()
                }),
    {
        let mut status = String::from_str(Self::emoji_for(tier));
        status.append(" Tier ");
        let t = nat_text(tier as u64);
        status.append(t.as_str());
        status.append(": ");
        status.append(tier_name);
        status.append("\n");
        let vetoed = economic_veto_active && tier >= 3;
        let v = if vetoed { String::from_str("⚠️ Economic Node Veto Active\n") } else { String::new() };
        status.append(v.as_str());
        if review_period_met && signatures_met && !economic_veto_active {
            status.append("✅ Governance: All Requirements Met - Ready to Merge");
        } else {
            let mut rest = String::from_str("❌ Governance: Requirements Not Met\n");
            rest.append("\n");
            rest.append(review_period_status);
            rest.append("\n\n");
            rest.append(signature_status);
            let w = if vetoed {
                String::from_str("\n\n⚠️ Economic Node Veto: 30%+ hashpower or 40%+ economic activity has vetoed this change")
            } else {
                String::new()
            };
            rest.append(w.as_str());
            status.append(rest.as_str());
        }
        status
    }

    /// The tier status followed, from tier 3 up, by the economic node status
    /// and, where given, a documentation link.
    pub fn generate_detailed_status(
        tier: u32,
        tier_name: &str,
        review_period_met: bool,
        signatures_met: bool,
        economic_veto_active: bool,
        review_period_status: &str,
        signature_status: &str,
        economic_veto_status: &str,
        documentation_link: Option<&str>,
    ) -> (r: String)
        ensures
            r@ == tier_text(tier, tier_name@, review_period_met, signatures_met, economic_veto_active, review_period_status@, signature_status@)
                + (if tier >= 3 { "\n\n--- Economic Node Status ---\n"@ + economic_veto_status@ } else { Seq::<char>::empty() })
                + (match documentation_link { Some(l) => "\n\n📚 Documentation: "@ + l@, None => Seq::<char>::empty() }),
    {
        let mut status = Self::generate_tier_status(tier, tier_name, review_period_met, signatures_met, economic_veto_active, review_period_status, signature_status);
        let a = if tier >= 3 {
            let mut x = String::from_str("\n\n--- Economic Node Status ---\n");
            x.append(economic_veto_status);
            x
        } else {
            String::new()
        };
        status.append(a.as_str());
        let b = match documentation_link {
            Some(link) => {
                let mut x = String::from_str("\n\n📚 Documentation: ");
                x.append(link);
                x
            },
            None => String::new(),
        };
        status.append(b.as_str());
        status
    }

    /// The text of an active emergency at `now`.
    pub fn generate_emergency_status(emergency: &ActiveEmergency, now: i64) -> (r: String)
        requires
            dates_in_range(*emergency),
        ensures
            r@ == emergency_text(*emergency, now),
    {
        let tier = &emergency.tier;
        let hours = emergency.remaining_hours(now);
        let expiration = if hours < 24 {
            let h = i64_to_string(hours);
            concat3("⏰ Expires in ", h.as_str(), " hours")
        } else {
            let d = i64_to_string(emergency.remaining_days(now));
            concat3("Expires in ", d.as_str(), " days")
        };
        let extension = if emergency.can_extend() {
            let used = nat_text(emergency.extension_count as u64);
            let max = nat_text(tier.max_extensions as u64);
            let days = nat_text(tier.extension_duration_days as u64);
            let mut x = concat3("\n📋 Extensions: ", used.as_str(), " of ");
            x.append(max.as_str());
            x.append(" used (can extend by ");
            x.append(days.as_str());
            x.append(" days)");
            x
        } else if tier.allows_extensions && emergency.extension_count >= tier.max_extensions {
            String::from_str("\n⚠️ Maximum extensions reached")
        } else {
            String::from_str("\n🚫 Extensions not allowed for this tier")
        };
        let mut s = concat3(tier.emoji.as_str(), " Emergency Tier Active: ", tier.name.as_str());
        s.append("\n📊 Requirements: ");
        let req = nat_text(tier.signatures_required as u64);
        s.append(req.as_str());
        s.append("-of-");
        let tot = nat_text(tier.signatures_total as u64);
        s.append(tot.as_str());
        s.append(" signatures, ");
        let rev = nat_text(tier.review_period_days as u64);
        s.append(rev.as_str());
        s.append(" day review period\n");
        s.append(expiration.as_str());
        s.append(extension.as_str());
        s.append("\n\nReason: ");
        s.append(emergency.reason.as_str());
        s.append("\nActivated by: ");
        s.append(emergency.activated_by.as_str());
        s.append(" on ");
        let when = date_text(emergency.activated_at);
        s.append(when.as_str());
        s
    }

    /// The expiry warning of an active emergency at `now`, empty when expiry
    /// is three days away or more.
    pub fn generate_emergency_expiration_warning(emergency: &ActiveEmergency, now: i64) -> (r: String)
        requires
            dates_in_range(*emergency),
        ensures
            r@ == expiration_warning_text(*emergency, now),
    {
        let hours = emergency.remaining_hours(now);
        if hours < 24 {
            let mut s = concat3("⚠️ ", emergency.tier.emoji.as_str(), " Emergency Tier Expiring Soon\n⏰ Less than 24 hours remaining\nExpires at: ");
            let when = date_text(emergency.expires_at);
            s.append(when.as_str());
            s.append("\n\n");
            let tail = if emergency.can_extend() {
                let a = nat_text(emergency.tier.extension_signatures_required as u64);
                let b = nat_text(emergency.tier.extension_signatures_total as u64);
                let mut x = concat3("Extension available: requires ", a.as_str(), "-of-");
                x.append(b.as_str());
                x.append(" signatures");
                x
            } else {
                String::from_str("Extensions not available for this tier")
            };
            s.append(tail.as_str());
            s
        } else {
            let days = emergency.remaining_days(now);
            if days < 3 {
                let mut s = concat3("⚠️ ", emergency.tier.emoji.as_str(), " Emergency Tier Expiring Soon\n⏰ ");
                let d = i64_to_string(days);
                s.append(d.as_str());
                s.append(" days remaining\nExpires at: ");
                let when = date_text(emergency.expires_at);
                s.append(when.as_str());
                s
            } else {
                String::new()
            }
        }
    }

    /// The combined status, preceded by the emergency status and its expiry
    /// warning, if any, where an emergency is active.
    pub fn generate_combined_status_with_emergency(review_period_met: bool, signatures_met: bool, review_period_status: &str, signature_status: &str, emergency: Option<&ActiveEmergency>, now: i64) -> (r: String)
        requires
            emergency matches Some(e) ==> dates_in_range(*e),
        ensures
            r@ == match emergency {
                None => combined_text(review_period_met, signatures_met, review_period_status@, signature_status@),
                Some(e) => emergency_text(*e, now) + "\n\n---\n\n"@
                    + (if expiration_warning_text(*e, now).len() == 0 {
                        Seq::<char>::empty()
                    } else {
                        expiration_warning_text(*e, now) + "\n\n---\n\n"@
                    })
                    + combined_text(review_period_met, signatures_met, review_period_status@, signature_status@),
            },
    {
        let base = Self::generate_combined_status(review_period_met, signatures_met, review_period_status, signature_status);
        match emergency {
            Some(e) => {
                let mut s = Self::generate_emergency_status(e, now);
                s.append("\n\n---\n\n");
                let warning = Self::generate_emergency_expiration_warning(e, now);
                if warning.as_str().unicode_len() > 0 {
                    s.append(warning.as_str());
                    s.append("\n\n---\n\n");
                }
                s.append(base.as_str());
                s
            },
            None => base,
        }
    }
}

impl StatusCheckGenerator {
    /// The post-emergency requirements at `now`: whether the post-mortem is
    /// published, overdue, due within a week or pending, with its deadline,
    /// and likewise, within two weeks, for the security audit where the
    /// tier requires one and a deadline is set.
    pub fn generate_post_emergency_requirements(tier: &EmergencyTier, post_mortem_published: bool, post_mortem_deadline: i64,
        security_audit_completed: bool, security_audit_deadline: Option<i64>, now: i64) -> (r: String)
        requires
            crate::clock::in_date_range(post_mortem_deadline as int),
            security_audit_deadline matches Some(d) ==> crate::clock::in_date_range(d as int),
        ensures
            r@ == post_emergency_text(*tier, post_mortem_published, post_mortem_deadline, security_audit_completed,
                security_audit_deadline, now),
    {
        let mut s = String::from_str("📋 Post-Emergency Requirements for ");
        s.append(tier.name.as_str());
        s.append("\n\n");
        let pm: &str = if post_mortem_published {
            "✅ Post-mortem published"
        } else if now > post_mortem_deadline {
            "❌ Post-mortem OVERDUE"
        } else if ((post_mortem_deadline as i128) - (now as i128)) / 86400 < 7 {
            "⚠️ Post-mortem due soon"
        } else {
            "⏳ Post-mortem pending"
        };
        s.append(pm);
        s.append("\nDeadline: ");
        let d1 = day_text(post_mortem_deadline);
        s.append(d1.as_str());
        s.append("\n");
        match security_audit_deadline {
            Some(d) => {
                if tier.requires_security_audit {
                    let a: &str = if security_audit_completed {
                        "✅ Security audit completed"
                    } else if now > d {
                        "❌ Security audit OVERDUE"
                    } else if ((d as i128) - (now as i128)) / 86400 < 14 {
                        "⚠️ Security audit due soon"
                    } else {
                        "⏳ Security audit pending"
                    };
                    s.append("\n");
                    s.append(a);
                    s.append("\nDeadline: ");
                    let d2 = day_text(d);
                    s.append(d2.as_str());
                }
            },
            None => {},
        }
        proof {
            reveal_strlit("📋 Post-Emergency Requirements for ");
            reveal_strlit("\n\n");
            reveal_strlit("\nDeadline: ");
            reveal_strlit("\n");
        }
        s
    }
}

} // verus!
