//! The auto-edit quota: five a month on FREE, unlimited on PRO.
use crate::auth::SubscriptionTier;
use crate::text::owned;
use vstd::prelude::*;

verus! {

/// Monthly auto-edits on the FREE tier.
pub const FREE_AUTO_EDIT_LIMIT: u32 = 5;

/// Auto-edit quota for the frontend.
#[derive(Debug)]
pub struct AutoEditQuotaInfo {
    /// Subscription tier, as its name.
    pub tier: String,
    pub is_pro: bool,
    /// Auto-edits used this month.
    pub usage: u32,
    /// Monthly limit (`u32::MAX` on PRO).
    pub limit: u32,
    /// Auto-edits left this month.
    pub remaining: u32,
    /// The month, as YYYY-MM.
    pub month: String,
}

/// The quota of a tier given this month's usage: FREE users have five, less
/// what they used (never below zero); PRO users have no limit.
pub fn auto_edit_quota(tier: SubscriptionTier, usage: u32, month: String) -> (r: AutoEditQuotaInfo)
    ensures
        r.is_pro == (tier == SubscriptionTier::Pro),
        r.tier@ == (if tier == SubscriptionTier::Pro {
            "PRO"@
        } else {
            "FREE"@
        }),
        r.usage == usage,
        r.month@ == month@,
        tier == SubscriptionTier::Pro ==> r.limit == u32::MAX && r.remaining == u32::MAX,
        tier == SubscriptionTier::Free ==> r.limit == 5 && r.remaining == (if usage >= 5 {
            0
        } else {
            5 - usage
        }),
{
    let is_pro = tier == SubscriptionTier::Pro;
    let limit: u32 = if is_pro {
        u32::MAX
    } else {
        FREE_AUTO_EDIT_LIMIT
    };
    let remaining: u32 = if is_pro {
        u32::MAX
    } else {
        limit.saturating_sub(usage)
    };
    let name = if is_pro {
        owned("PRO")
    } else {
        owned("FREE")
    };
    AutoEditQuotaInfo { tier: name, is_pro, usage, limit, remaining, month }
}

} // verus!
