//! Supabase connection settings and request rules.
use crate::text::{owned, push_all};
use vstd::prelude::*;

verus! {

/// Supabase errors.
#[derive(Debug)]
pub enum SupabaseError {
    /// A setting is missing or invalid.
    ConfigError(String),
    /// Sign-in or sign-up was refused.
    AuthFailed(String),
    /// The API refused a request (its reply).
    ApiError(String),
    /// A reply could not be read.
    InvalidResponse(String),
    /// The request could not be sent.
    Network(String),
}

/// Supabase project settings.
#[derive(Debug)]
pub struct SupabaseConfig {
    pub project_url: String,
    pub anon_key: String,
}

impl SupabaseConfig {
    /// Settings of a project.
    pub fn new(project_url: String, anon_key: String) -> (c: Self)
        ensures
            c.project_url@ == project_url@,
            c.anon_key@ == anon_key@,
    {
        SupabaseConfig { project_url, anon_key }
    }

    /// Settings from the values of SUPABASE_URL and SUPABASE_ANON_KEY (`None`
    /// when a variable is not set), the URL checked first.
    pub fn from_env_values(project_url: Option<String>, anon_key: Option<String>) -> (r: Result<
        Self,
        SupabaseError,
    >)
        ensures
            project_url is None ==> (r matches Err(SupabaseError::ConfigError(m)) && m@
                == "SUPABASE_URL not set"@),
            project_url is Some && anon_key is None ==> (r matches Err(
                SupabaseError::ConfigError(m),
            ) && m@ == "SUPABASE_ANON_KEY not set"@),
            (project_url is Some && anon_key is Some) ==> (r matches Ok(c)
                && c.project_url@ == project_url.unwrap()@ && c.anon_key@ == anon_key.unwrap()@),
    {
        let project_url = match project_url {
            Some(u) => u,
            None => {
                return Err(SupabaseError::ConfigError(owned("SUPABASE_URL not set")));
            },
        };
        let anon_key = match anon_key {
            Some(k) => k,
            None => {
                return Err(SupabaseError::ConfigError(owned("SUPABASE_ANON_KEY not set")));
            },
        };
        Ok(SupabaseConfig { project_url, anon_key })
    }

    /// Endpoint creating an account; with email confirmation disabled the
    /// account is confirmed at once.
    pub fn signup_url(&self, disable_email_confirm: bool) -> (r: String)
        ensures
            r@ == self.project_url@ + "/auth/v1/signup"@ + (if disable_email_confirm {
                "?autoconfirm=true"@
            } else {
                Seq::empty()
            }),
    {
        let mut s = owned(self.project_url.as_str());
        push_all(&mut s, "/auth/v1/signup");
        if disable_email_confirm {
            push_all(&mut s, "?autoconfirm=true");
        }
        assert(s@ =~= self.project_url@ + "/auth/v1/signup"@ + (if disable_email_confirm {
            "?autoconfirm=true"@
        } else {
            Seq::empty()
        }));
        s
    }

    /// Endpoint signing in with a password.
    pub fn password_token_url(&self) -> (r: String)
        ensures
            r@ == self.project_url@ + "/auth/v1/token?grant_type=password"@,
    {
        let mut s = owned(self.project_url.as_str());
        push_all(&mut s, "/auth/v1/token?grant_type=password");
        s
    }

    /// Endpoint of a table of the REST API.
    pub fn table_url(&self, table: &str) -> (r: String)
        ensures
            r@ == self.project_url@ + "/rest/v1/"@ + table@,
    {
        let mut s = owned(self.project_url.as_str());
        push_all(&mut s, "/rest/v1/");
        push_all(&mut s, table);
        s
    }
}

/// A session expiring at `expires_at` has expired at `now` (both seconds since
/// the epoch): at its expiry instant or later.
pub open spec fn expired_by(expires_at: i64, now: i64) -> bool {
    expires_at <= now
}

/// A session expires at its expiry instant (seconds since the epoch).
pub fn session_expired(expires_at: i64, now: i64) -> (r: bool)
    ensures
        r == (expires_at <= now),
{
    expires_at <= now
}

/// A Supabase client: the project it talks to. Its HTTP calls are made by the
/// application around the library.
#[derive(Debug)]
pub struct SupabaseClient {
    config: SupabaseConfig,
}

impl SupabaseClient {
    /// The client's project settings.
    pub closed spec fn spec_config(&self) -> SupabaseConfig {
        self.config
    }

    /// A client of the project `config`.
    pub fn new(config: SupabaseConfig) -> (c: Self)
        ensures
            c.spec_config() == config,
    {
        SupabaseClient { config }
    }

    /// The client's project settings.
    pub fn config(&self) -> (r: &SupabaseConfig)
        ensures
            *r == self.spec_config(),
    {
        &self.config
    }

    /// Whether a session expiring at `expires_at` (seconds since the epoch)
    /// has expired by the system clock: `session_expired` at the clock's
    /// reading, with no grace period.
    pub fn is_token_expired(&self, expires_at: i64) -> (r: bool)
        ensures
            exists|now: i64| r == #[trigger] expired_by(expires_at, now),
    {
        let now = crate::clock::unix_now_secs();
        let r = session_expired(expires_at, now);
        assert(r == expired_by(expires_at, now));
        r
    }
}

/// The error of a refused sign-in or sign-up: the error and its description
/// (empty when absent).
pub fn auth_failure(error: &str, description: &Option<String>) -> (r: SupabaseError)
    ensures
        r matches SupabaseError::AuthFailed(m) && m@ == error@ + ": "@ + (match *description {
            Some(d) => d@,
            None => Seq::<char>::empty(),
        }),
{
    let mut m = owned(error);
    push_all(&mut m, ": ");
    match description {
        Some(d) => push_all(&mut m, d.as_str()),
        None => {},
    }
    assert(m@ =~= error@ + ": "@ + (match *description {
        Some(d) => d@,
        None => Seq::<char>::empty(),
    }));
    SupabaseError::AuthFailed(m)
}

/// The PostgREST filter matching a value exactly.
pub fn eq_filter(value: &str) -> (r: String)
    ensures
        r@ == "eq."@ + value@,
{
    let mut s = owned("eq.");
    push_all(&mut s, value);
    s
}

} // verus!
