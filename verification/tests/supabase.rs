use lolshorts::supabase::client::{session_expired, SupabaseConfig, SupabaseError};
use std::time::{SystemTime, UNIX_EPOCH};

#[test]
fn test_config_from_env_missing() {
    let result = SupabaseConfig::from_env_values(None, None);
    assert!(result.is_err());
    match SupabaseConfig::from_env_values(Some("https://x.supabase.co".to_string()), None) {
        Err(SupabaseError::ConfigError(m)) => assert_eq!(m, "SUPABASE_ANON_KEY not set"),
        _ => panic!("expected a configuration error"),
    }
    let ok = SupabaseConfig::from_env_values(Some("u".to_string()), Some("k".to_string())).unwrap();
    assert_eq!(ok.project_url, "u");
    assert_eq!(ok.anon_key, "k");
}

#[test]
fn test_config_new() {
    let config = SupabaseConfig::new(
        "https://example.supabase.co".to_string(),
        "test-anon-key".to_string(),
    );

    assert_eq!(config.project_url, "https://example.supabase.co");
    assert_eq!(config.anon_key, "test-anon-key");
}

#[test]
fn test_is_token_expired() {
    let now = SystemTime::now().duration_since(UNIX_EPOCH).unwrap().as_secs() as i64;
    // Token expired 1 hour ago
    assert!(session_expired(now - 3600, now));
    // Token expires 1 hour from now
    assert!(!session_expired(now + 3600, now));
    // Expiry at this very second counts as expired.
    assert!(session_expired(now, now));

    let client = lolshorts::supabase::client::SupabaseClient::new(SupabaseConfig::new(
        "https://example.supabase.co".to_string(),
        "test-key".to_string(),
    ));
    assert!(client.is_token_expired(now - 3600));
    assert!(!client.is_token_expired(now + 3600));
    assert_eq!(client.config().project_url, "https://example.supabase.co");
}
