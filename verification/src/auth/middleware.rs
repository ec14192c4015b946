//! Guards of the commands: a signed-in user, a subscription tier, a fresh
//! token.
use crate::auth::{same_user, AuthError, AuthManager, SubscriptionTier, User};
use crate::text::owned;
use vstd::prelude::*;

verus! {

/// The signed-in user, or `NotAuthenticated`.
pub fn require_auth(auth: &AuthManager) -> (r: Result<User, AuthError>)
    ensures
        match auth.user() {
            Some(u) => r matches Ok(c) && same_user(c, u),
            None => r matches Err(AuthError::NotAuthenticated),
        },
{
    if !auth.is_authenticated() {
        return Err(AuthError::NotAuthenticated);
    }
    match auth.get_current_user() {
        Ok(Some(u)) => Ok(u),
        Ok(None) => Err(AuthError::NotAuthenticated),
        Err(e) => Err(e),
    }
}

/// A tier grants another: PRO grants everything, FREE only FREE.
pub open spec fn grants(has: SubscriptionTier, required: SubscriptionTier) -> bool {
    has == SubscriptionTier::Pro || required == SubscriptionTier::Free
}

/// The signed-in user when their tier grants `required_tier`.
pub fn require_tier(auth: &AuthManager, required_tier: SubscriptionTier) -> (r: Result<User, AuthError>)
    ensures
        match auth.user() {
            None => r matches Err(AuthError::NotAuthenticated),
            Some(u) => if grants(u.tier, required_tier) {
                r matches Ok(c) && same_user(c, u)
            } else {
                r matches Err(AuthError::Failed(m)) && m@ == "PRO subscription required for this feature"@
            },
        },
{
    let user = require_auth(auth)?;
    match (user.tier, required_tier) {
        (SubscriptionTier::Pro, _) => Ok(user),
        (SubscriptionTier::Free, SubscriptionTier::Free) => Ok(user),
        (SubscriptionTier::Free, SubscriptionTier::Pro) => Err(
            AuthError::Failed(owned("PRO subscription required for this feature")),
        ),
    }
}

/// A token is refreshed five minutes before it expires.
pub open spec fn token_expired_at(expires_at: i64, now: i64) -> bool {
    expires_at < now + 300
}

/// Whether the user's token expires within five minutes of `now` (seconds
/// since the epoch).
pub fn is_token_expired_at(user: &User, now: i64) -> (r: bool)
    ensures
        r == token_expired_at(user.expires_at, now),
{
    (user.expires_at as i128) < (now as i128) + 300
}

/// Whether the user's token expires within five minutes, by the system clock.
pub fn is_token_expired(user: &User) -> (r: bool)
    ensures
        exists|now: i64| r == token_expired_at(user.expires_at, now),
{
    let now = crate::clock::unix_now_secs();
    is_token_expired_at(user, now)
}

} // verus!
