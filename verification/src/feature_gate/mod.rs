//! Which features each subscription tier unlocks.
use crate::auth::{AuthManager, SubscriptionTier};
use std::sync::Arc;
use vstd::prelude::*;

verus! {

/// Feature gate errors.
#[derive(Debug, Clone, Copy, PartialEq, Eq, Structural)]
pub enum FeatureGateError {
    /// The feature is not available in the FREE tier.
    FeatureNotAvailable,
    /// Authentication is required.
    AuthRequired,
}

/// Gated features.
#[derive(Debug, Clone, Copy, PartialEq, Eq, Structural)]
pub enum Feature {
    BasicRecording,
    BasicClipExtraction,
    WatermarkedExport,
    AdvancedEditing,
    CustomTransitions,
    NoWatermark,
    AutoUpload,
    HighQualityExport,
    UnlimitedStorage,
}

/// Features every tier has.
pub open spec fn free_feature(f: Feature) -> bool {
    f == Feature::BasicRecording || f == Feature::BasicClipExtraction || f
        == Feature::WatermarkedExport
}

/// A feature is available on a tier: FREE features always, the others on PRO.
pub open spec fn available(f: Feature, tier: SubscriptionTier) -> bool {
    free_feature(f) || tier == SubscriptionTier::Pro
}

/// Checks features against the signed-in user's tier.
pub struct FeatureGate {
    auth: Arc<AuthManager>,
}

/// The tier of the signed-in user, FREE when nobody is.
pub open spec fn current_tier(auth: AuthManager) -> SubscriptionTier {
    match auth.user() {
        Some(u) => u.tier,
        None => SubscriptionTier::Free,
    }
}

impl FeatureGate {
    /// The authentication state checked.
    pub closed spec fn auth_spec(&self) -> AuthManager {
        *self.auth
    }

    /// A gate over `auth`.
    pub fn new(auth: Arc<AuthManager>) -> (g: Self)
        ensures
            g.auth_spec() == *auth,
    {
        FeatureGate { auth }
    }

    /// Whether a feature is available to the current user.
    pub fn is_available(&self, feature: Feature) -> (r: bool)
        ensures
            r == available(feature, current_tier(self.auth_spec())),
    {
        let tier = match self.auth.get_tier() {
            Ok(t) => t,
            Err(_) => {
                return false;
            },
        };
        match feature {
            Feature::BasicRecording | Feature::BasicClipExtraction | Feature::WatermarkedExport => true,
            _ => tier == SubscriptionTier::Pro,
        }
    }

    /// Require a feature, or `FeatureNotAvailable`.
    pub fn require(&self, feature: Feature) -> (r: Result<(), FeatureGateError>)
        ensures
            available(feature, current_tier(self.auth_spec())) ==> r is Ok,
            !available(feature, current_tier(self.auth_spec())) ==> r == Err::<(), FeatureGateError>(
                FeatureGateError::FeatureNotAvailable,
            ),
    {
        if self.is_available(feature) {
            Ok(())
        } else {
            Err(FeatureGateError::FeatureNotAvailable)
        }
    }
}

/// PRO unlocks every feature, and FREE exactly the free ones: upgrading never
/// takes a feature away.
pub proof fn law_tiers_nest(f: Feature)
    ensures
        available(f, SubscriptionTier::Pro),
        available(f, SubscriptionTier::Free) == free_feature(f),
        available(f, SubscriptionTier::Free) ==> available(f, SubscriptionTier::Pro),
{
}

} // verus!
