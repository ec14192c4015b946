//! The signed-in user, their subscription tier, and the guards that require
//! them.

pub mod commands;
pub mod middleware;

use crate::supabase::client::SupabaseConfig;
use crate::text::owned;
use vstd::prelude::*;

verus! {

/// Authentication errors.
#[derive(Debug)]
pub enum AuthError {
    /// Authentication failed (the reason).
    Failed(String),
    /// No user is signed in.
    NotAuthenticated,
    /// The token is invalid.
    InvalidToken,
    /// Supabase reported an error (its message).
    Supabase(String),
}

/// Subscription tier.
#[derive(Debug, Clone, Copy, PartialEq, Eq, Structural)]
pub enum SubscriptionTier {
    Free,
    Pro,
}

/// A signed-in user.
#[derive(Debug)]
pub struct User {
    pub id: String,
    pub email: String,
    pub tier: SubscriptionTier,
    pub access_token: String,
    pub refresh_token: String,
    /// Expiry of the access token, in seconds since the epoch.
    pub expires_at: i64,
}

/// Two users with the same fields.
pub open spec fn same_user(a: User, b: User) -> bool {
    &&& a.id@ == b.id@
    &&& a.email@ == b.email@
    &&& a.tier == b.tier
    &&& a.access_token@ == b.access_token@
    &&& a.refresh_token@ == b.refresh_token@
    &&& a.expires_at == b.expires_at
}

impl User {
    /// A copy of the user.
    pub fn copy(&self) -> (u: User)
        ensures
            same_user(u, *self),
    {
        User {
            id: owned(self.id.as_str()),
            email: owned(self.email.as_str()),
            tier: self.tier,
            access_token: owned(self.access_token.as_str()),
            refresh_token: owned(self.refresh_token.as_str()),
            expires_at: self.expires_at,
        }
    }
}

/// The authentication state: the signed-in user, if any, and the Supabase
/// project, when one is configured.
pub struct AuthManager {
    current_user: Option<User>,
    supabase: Option<SupabaseConfig>,
}

impl AuthManager {
    /// The signed-in user.
    pub closed spec fn user(&self) -> Option<User> {
        self.current_user
    }

    /// Whether a Supabase project is configured.
    pub closed spec fn configured(&self) -> bool {
        self.supabase is Some
    }

    /// No user signed in, with the Supabase project found in the environment
    /// (if any).
    pub fn new(supabase: Option<SupabaseConfig>) -> (a: Self)
        ensures
            a.user() is None,
            a.configured() == supabase is Some,
    {
        AuthManager { current_user: None, supabase }
    }

    /// No user signed in, with a Supabase project.
    pub fn new_with_config(config: SupabaseConfig) -> (a: Self)
        ensures
            a.user() is None,
            a.configured(),
    {
        AuthManager { current_user: None, supabase: Some(config) }
    }

    /// Whether a Supabase project is configured.
    pub fn has_supabase(&self) -> (r: bool)
        ensures
            r == self.configured(),
    {
        self.supabase.is_some()
    }

    /// The Supabase project, or an error when none is configured.
    pub fn get_supabase_client(&self) -> (r: Result<&SupabaseConfig, AuthError>)
        ensures
            self.configured() ==> r is Ok,
            !self.configured() ==> (r matches Err(AuthError::Failed(m)) && m@
                == "Supabase client not initialized"@),
    {
        match &self.supabase {
            Some(c) => Ok(c),
            None => Err(AuthError::Failed(owned("Supabase client not initialized"))),
        }
    }

    /// Sign `user` in, replacing any signed-in user.
    pub fn login(&mut self, user: User) -> (r: Result<(), AuthError>)
        ensures
            r is Ok,
            final(self).user() == Some(user),
            final(self).configured() == old(self).configured(),
    {
        self.current_user = Some(user);
        Ok(())
    }

    /// Sign the user out.
    pub fn logout(&mut self) -> (r: Result<(), AuthError>)
        ensures
            r is Ok,
            final(self).user() is None,
            final(self).configured() == old(self).configured(),
    {
        self.current_user = None;
        Ok(())
    }

    /// A copy of the signed-in user.
    pub fn get_current_user(&self) -> (r: Result<Option<User>, AuthError>)
        ensures
            match self.user() {
                Some(u) => r matches Ok(Some(c)) && same_user(c, u),
                None => r matches Ok(None),
            },
    {
        match &self.current_user {
            Some(u) => Ok(Some(u.copy())),
            None => Ok(None),
        }
    }

    /// The tier of the signed-in user; Free when nobody is signed in.
    pub fn get_tier(&self) -> (r: Result<SubscriptionTier, AuthError>)
        ensures
            r == Ok::<SubscriptionTier, AuthError>(
                match self.user() {
                    Some(u) => u.tier,
                    None => SubscriptionTier::Free,
                },
            ),
    {
        match &self.current_user {
            Some(u) => Ok(u.tier),
            None => Ok(SubscriptionTier::Free),
        }
    }

    /// Whether a user is signed in.
    pub fn is_authenticated(&self) -> (r: bool)
        ensures
            r == self.user() is Some,
    {
        self.current_user.is_some()
    }
}

} // verus!
