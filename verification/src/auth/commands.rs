//! What the account commands answer from the license found for a user.
use crate::auth::SubscriptionTier;
use crate::text::{owned, str_eq};
use vstd::prelude::*;

verus! {

/// License information for the frontend.
#[derive(Debug)]
pub struct LicenseInfoResponse {
    pub tier: String,
    pub expires_at: Option<String>,
    pub is_active: bool,
}

/// Subscription details for the frontend.
#[derive(Debug)]
pub struct SubscriptionDetails {
    pub is_active: bool,
    pub tier: String,
    pub expires_at: Option<String>,
    pub auto_renew: bool,
    pub payment_method: Option<String>,
    /// Whether payment is available.
    pub payment_available: bool,
    /// Message about payment availability.
    pub payment_message: Option<String>,
}

/// A license found for a user: its tier, expiry, and whether it is active.
#[derive(Debug)]
pub struct LicenseSummary {
    pub tier: String,
    pub expires_at: Option<String>,
    pub is_active: bool,
}

/// The tier a license gives: PRO for a PRO license, FREE otherwise (and
/// without a license).
pub fn tier_from_license(license_tier: Option<&str>) -> (t: SubscriptionTier)
    ensures
        t == (if license_tier matches Some(s) && s@ == "PRO"@ {
            SubscriptionTier::Pro
        } else {
            SubscriptionTier::Free
        }),
{
    match license_tier {
        Some(s) => if str_eq(s, "PRO") {
            SubscriptionTier::Pro
        } else {
            SubscriptionTier::Free
        },
        None => SubscriptionTier::Free,
    }
}

/// The license information of a user: their license, or an active FREE
/// license when they have none.
pub fn license_info(license: Option<LicenseSummary>) -> (r: LicenseInfoResponse)
    ensures
        match license {
            Some(l) => r.tier@ == l.tier@ && r.expires_at == l.expires_at && r.is_active
                == l.is_active,
            None => r.tier@ == "FREE"@ && r.expires_at is None && r.is_active,
        },
{
    match license {
        Some(l) => LicenseInfoResponse { tier: l.tier, expires_at: l.expires_at, is_active: l.is_active },
        None => LicenseInfoResponse { tier: owned("FREE"), expires_at: None, is_active: true },
    }
}

/// The subscription details shown: from the license of a signed-in user (an
/// inactive FREE one when none is found), with manual upgrades only.
pub fn subscription_details(signed_in: bool, license: Option<LicenseSummary>) -> (r: SubscriptionDetails)
    ensures
        !r.auto_renew && r.payment_method is None && !r.payment_available,
        signed_in ==> (r.payment_message matches Some(m) && m@
            == "PRO upgrade available via manual process. Contact support@lolshorts.app"@),
        signed_in && license is Some ==> (r.tier@ == license.unwrap().tier@ && r.is_active
            == license.unwrap().is_active && r.expires_at == license.unwrap().expires_at),
        signed_in && license is None ==> (r.tier@ == "FREE"@ && !r.is_active && r.expires_at is None),
        !signed_in ==> (r.tier@ == "FREE"@ && !r.is_active && r.expires_at is None && (
        r.payment_message matches Some(m) && m@ == "Log in to view subscription details"@)),
{
    if signed_in {
        let (is_active, tier, expires_at) = match license {
            Some(l) => (l.is_active, l.tier, l.expires_at),
            None => (false, owned("FREE"), None),
        };
        SubscriptionDetails {
            is_active,
            tier,
            expires_at,
            auto_renew: false,
            payment_method: None,
            payment_available: false,
            payment_message: Some(
                owned("PRO upgrade available via manual process. Contact support@lolshorts.app"),
            ),
        }
    } else {
        SubscriptionDetails {
            is_active: false,
            tier: owned("FREE"),
            expires_at: None,
            auto_renew: false,
            payment_method: None,
            payment_available: false,
            payment_message: Some(owned("Log in to view subscription details")),
        }
    }
}

/// The answer to a payment confirmation: payments are processed manually.
pub fn confirm_payment_reply(signed_in: bool) -> (r: Result<(), String>)
    ensures
        !signed_in ==> (r matches Err(m) && m@ == "You must be logged in to upgrade your subscription."@),
        signed_in ==> (r matches Err(m) && m@ == "Payment processing is not yet available. Please contact support@lolshorts.app for PRO upgrade inquiries. Include your account email and we'll process your upgrade manually."@),
{
    if !signed_in {
        return Err(owned("You must be logged in to upgrade your subscription."));
    }
    Err(owned("Payment processing is not yet available. Please contact support@lolshorts.app for PRO upgrade inquiries. Include your account email and we'll process your upgrade manually."))
}

/// The answer to a cancellation request: nothing to cancel on FREE, manual
/// cancellation on PRO.
pub fn cancel_subscription_reply(signed_in: bool, tier: SubscriptionTier) -> (r: Result<(), String>)
    ensures
        !signed_in ==> (r matches Err(m) && m@ == "You must be logged in to manage your subscription."@),
        signed_in && tier == SubscriptionTier::Free ==> (r matches Err(m) && m@ == "You don't have an active subscription to cancel."@),
        signed_in && tier == SubscriptionTier::Pro ==> (r matches Err(m) && m@ == "To cancel your PRO subscription, please contact support@lolshorts.app. We'll process your cancellation request within 24 hours."@),
{
    if !signed_in {
        return Err(owned("You must be logged in to manage your subscription."));
    }
    if tier == SubscriptionTier::Free {
        return Err(owned("You don't have an active subscription to cancel."));
    }
    Err(owned("To cancel your PRO subscription, please contact support@lolshorts.app. We'll process your cancellation request within 24 hours."))
}

/// The answer to opening the payment page.
pub fn payment_page_reply(signed_in: bool) -> (r: Result<String, String>)
    ensures
        !signed_in ==> (r matches Err(m) && m@ == "Please log in first to upgrade to PRO."@),
        signed_in ==> (r matches Ok(m) && m@ == "To upgrade to PRO, please visit our website at https://lolshorts.app/pricing or contact support@lolshorts.app with your account email. PRO features include unlimited auto-edits, no watermark, and priority processing."@),
{
    if !signed_in {
        return Err(owned("Please log in first to upgrade to PRO."));
    }
    Ok(owned("To upgrade to PRO, please visit our website at https://lolshorts.app/pricing or contact support@lolshorts.app with your account email. PRO features include unlimited auto-edits, no watermark, and priority processing."))
}

} // verus!
