use lolshorts::youtube::{client_id_usable, client_secret_usable, redirect_uri};

#[test]
fn youtube_credentials_that_count_as_configured() {
    assert!(client_id_usable("1234-abc.apps.googleusercontent.com"));
    assert!(!client_id_usable(""));
    assert!(!client_id_usable("your-client-id.apps.googleusercontent.com"));
    assert!(!client_id_usable("1234-abc"));
    assert!(!client_id_usable(".apps.googleusercontent.co"));
    assert!(client_secret_usable("GOCSPX-secret"));
    assert!(!client_secret_usable(""));
    assert!(!client_secret_usable("your-client-secret-here"));
    assert_eq!(redirect_uri(None), "http://localhost:8080/oauth2/callback");
    assert_eq!(redirect_uri(Some("http://x/cb".to_string())), "http://x/cb");
}
