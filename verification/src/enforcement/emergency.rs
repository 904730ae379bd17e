//! Active emergencies: the parameters of an emergency tier and how much time
//! an activation has left.

use vstd::prelude::*;
use vstd::string::*;
use crate::clock::in_date_range;

verus! {

/// The parameters of an emergency tier.
#[derive(Debug)]
pub struct EmergencyTier {
    pub name: String,
    pub emoji: String,
    /// Signatures required, out of `signatures_total`.
    pub signatures_required: u32,
    pub signatures_total: u32,
    pub review_period_days: u32,
    pub allows_extensions: bool,
    pub max_extensions: u32,
    pub extension_duration_days: u32,
    /// Signatures an extension requires, out of `extension_signatures_total`.
    pub extension_signatures_required: u32,
    pub extension_signatures_total: u32,
    /// Whether the tier requires a security audit after the emergency.
    pub requires_security_audit: bool,
}

/// An activated emergency tier.
#[derive(Debug)]
pub struct ActiveEmergency {
    pub tier: EmergencyTier,
    pub reason: String,
    pub activated_by: String,
    /// Seconds since the Unix epoch.
    pub activated_at: i64,
    /// Seconds since the Unix epoch.
    pub expires_at: i64,
    pub extension_count: u32,
}

/// Integer division rounding toward zero, as durations count whole units.
pub open spec fn trunc_div(a: int, b: int) -> int {
    if a >= 0 { a / b } else { -((-a) / b) }
}

/// Whole hours left at `now` (negative once expired).
pub open spec fn hours_left(e: ActiveEmergency, now: i64) -> int {
    trunc_div(e.expires_at - now, 3600)
}

/// Whole days left at `now` (negative once expired).
pub open spec fn days_left(e: ActiveEmergency, now: i64) -> int {
    trunc_div(e.expires_at - now, 86400)
}

/// The activation may be extended once more.
pub open spec fn extendable(e: ActiveEmergency) -> bool {
    e.tier.allows_extensions && e.extension_count < e.tier.max_extensions
}

/// The times of an activation can be rendered as dates.
pub open spec fn dates_in_range(e: ActiveEmergency) -> bool {
    in_date_range(e.activated_at as int) && in_date_range(e.expires_at as int)
}

fn trunc_div_i128(a: i128, b: i128) -> (r: i64)
    requires
        b == 3600 || b == 86400,
        -0x1_0000_0000_0000_0000 <= a <= 0x1_0000_0000_0000_0000,
    ensures
        r == trunc_div(a as int, b as int),
{
    let m: i128 = if a >= 0 { a } else { -a };
    let q: i128 = m / b;
    proof {
        vstd::arithmetic::div_mod::lemma_div_is_ordered_by_denominator(m as int, 3600, b as int);
        vstd::arithmetic::div_mod::lemma_div_is_ordered(m as int, 0x1_0000_0000_0000_0000, 3600);
        assert(0x1_0000_0000_0000_0000int / 3600 < 0x7fff_ffff_ffff_ffff);
        assert(0 <= q);
    }
    if a >= 0 {
        q as i64
    } else {
        -(q as i64)
    }
}

impl ActiveEmergency {
    /// Whole hours left at `now`.
    pub fn remaining_hours(&self, now: i64) -> (r: i64)
        ensures
            r == hours_left(*self, now),
    {
        let rem: i128 = (self.expires_at as i128) - (now as i128);
        trunc_div_i128(rem, 3600)
    }

    /// Whole days left at `now`.
    pub fn remaining_days(&self, now: i64) -> (r: i64)
        ensures
            r == days_left(*self, now),
    {
        let rem: i128 = (self.expires_at as i128) - (now as i128);
        trunc_div_i128(rem, 86400)
    }

    /// Whether the activation may be extended once more.
    pub fn can_extend(&self) -> (r: bool)
        ensures
            r == extendable(*self),
    {
        self.tier.allows_extensions && self.extension_count < self.tier.max_extensions
    }
}

} // verus!
