use lolshorts::clock::seconds_or_zero;
use lolshorts::auth::middleware::{is_token_expired, is_token_expired_at, require_auth, require_tier};
use lolshorts::auth::{AuthError, AuthManager, SubscriptionTier, User};
use lolshorts::feature_gate::{Feature, FeatureGate, FeatureGateError};
use std::sync::Arc;
use std::time::{SystemTime, UNIX_EPOCH};

fn user(tier: SubscriptionTier, expires_at: i64) -> User {
    User {
        id: "test".to_string(),
        email: "test@example.com".to_string(),
        tier,
        access_token: "token".to_string(),
        refresh_token: "refresh".to_string(),
        expires_at,
    }
}

#[test]
fn test_token_expiration_check() {
    let now = SystemTime::now().duration_since(UNIX_EPOCH).unwrap().as_secs() as i64;

    // Token expired 1 hour ago
    let expired_user = user(SubscriptionTier::Free, now - 3600);
    assert!(is_token_expired(&expired_user));

    // Token expires in 3 minutes (within 5-minute buffer, should refresh)
    let near_expired_user = user(SubscriptionTier::Free, now + 180);
    assert!(is_token_expired(&near_expired_user));

    // Token expires in 1 hour (safe)
    let valid_user = user(SubscriptionTier::Free, now + 3600);
    assert!(!is_token_expired(&valid_user));
}

#[test]
fn token_buffer_boundary() {
    let u = user(SubscriptionTier::Free, 1_300);
    assert!(is_token_expired_at(&u, 1_001));
    assert!(!is_token_expired_at(&u, 1_000));
}

#[test]
fn test_auth_manager_initialization() {
    let auth = AuthManager::new(None);
    assert!(!auth.is_authenticated());
}

#[test]
fn test_login_logout() {
    let mut auth = AuthManager::new(None);

    let user = User {
        id: "test123".to_string(),
        email: "test@example.com".to_string(),
        tier: SubscriptionTier::Pro,
        access_token: "test_access_token".to_string(),
        refresh_token: "test_refresh_token".to_string(),
        expires_at: 9999999999, // Far future
    };

    auth.login(user).unwrap();
    assert!(auth.is_authenticated());

    auth.logout().unwrap();
    assert!(!auth.is_authenticated());
}

#[test]
fn tier_and_guards() {
    let mut auth = AuthManager::new(None);
    assert_eq!(auth.get_tier().unwrap(), SubscriptionTier::Free);
    assert!(matches!(require_auth(&auth), Err(AuthError::NotAuthenticated)));
    assert!(matches!(auth.get_supabase_client(), Err(AuthError::Failed(_))));
    auth.login(user(SubscriptionTier::Free, 9_999_999_999)).unwrap();
    assert_eq!(require_auth(&auth).unwrap().id, "test");
    assert!(require_tier(&auth, SubscriptionTier::Free).is_ok());
    assert!(require_tier(&auth, SubscriptionTier::Pro).is_err());
    auth.login(user(SubscriptionTier::Pro, 9_999_999_999)).unwrap();
    assert!(require_tier(&auth, SubscriptionTier::Free).is_ok());
    assert_eq!(auth.get_current_user().unwrap().unwrap().tier, SubscriptionTier::Pro);
}

#[test]
fn test_free_tier_features() {
    let auth = Arc::new(AuthManager::new(None));
    let gate = FeatureGate::new(auth);

    assert!(gate.is_available(Feature::BasicRecording));
    assert!(gate.is_available(Feature::BasicClipExtraction));
    assert!(gate.is_available(Feature::WatermarkedExport));
    assert!(!gate.is_available(Feature::AdvancedEditing));
    assert!(!gate.is_available(Feature::NoWatermark));
    assert!(matches!(gate.require(Feature::AutoUpload), Err(FeatureGateError::FeatureNotAvailable)));
}

#[test]
fn test_pro_tier_features() {
    let mut auth = AuthManager::new(None);
    let user = User {
        id: "test".to_string(),
        email: "test@example.com".to_string(),
        tier: SubscriptionTier::Pro,
        access_token: "access_token".to_string(),
        refresh_token: "refresh_token".to_string(),
        expires_at: 9999999999,
    };
    auth.login(user).unwrap();

    let gate = FeatureGate::new(Arc::new(auth));

    assert!(gate.is_available(Feature::BasicRecording));
    assert!(gate.is_available(Feature::AdvancedEditing));
    assert!(gate.is_available(Feature::NoWatermark));
    assert!(gate.require(Feature::UnlimitedStorage).is_ok());
}

#[test]
fn clock_reading_becomes_signed_seconds() {
    assert_eq!(seconds_or_zero(None), 0);
    assert_eq!(seconds_or_zero(Some(1_700_000_000)), 1_700_000_000);
    assert_eq!(seconds_or_zero(Some(u64::MAX)), -1);
    assert!(lolshorts::clock::unix_now_secs() > 1_600_000_000);
}
