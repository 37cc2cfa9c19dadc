use oidc_mock::metadata::{MetadataError, OauthDiscoveryError};
use oidc_mock::mock::{
    MockImpl, AUTHORIZATION_URL, CLIENT_ID, ISSUER_URL, JWKS_URL, MOCKING_BACKEND,
    REGISTRATION_URL, REVOCATION_URL, TOKEN_URL,
};
use oidc_mock::tokens::{ClientErrorCode, OidcError, OidcSessionTokens};
use oidc_mock::url_value::ParsedUrl;

fn tokens(access: &str, refresh: Option<&str>) -> OidcSessionTokens {
    OidcSessionTokens {
        access_token: access.to_owned(),
        refresh_token: refresh.map(|s| s.to_owned()),
        latest_id_token: None,
    }
}

fn url(s: &str) -> ParsedUrl {
    ParsedUrl::parse(s).expect("a valid URL")
}

#[test]
fn test_fixed_urls_parse_and_new_is_empty() {
    let m = MockImpl::try_new().expect("the fixed URLs parse");
    assert_eq!(m.num_refreshes(), 0);
    assert!(m.revoked_tokens().is_empty());
    assert!(!m.has_next_session_tokens());
}

#[test]
fn test_parsed_url_keeps_its_text() {
    let u = url("https://oidc.example.com/register");
    assert_eq!(u.as_source(), "https://oidc.example.com/register");
    assert_eq!(u.url().as_str(), "https://oidc.example.com/register");
    assert_eq!(u.clone().as_source(), u.as_source());
    assert!(ParsedUrl::parse("not a url").is_none());
    assert!(ParsedUrl::parse("").is_none());
}

#[test]
fn test_discover_secure_by_default() {
    let m = MockImpl::new();
    let meta = m.discover(false).expect("the default metadata validates");
    assert_eq!(meta.issuer(), ISSUER_URL);
    assert_eq!(meta.authorization_endpoint().as_str(), AUTHORIZATION_URL);
    assert_eq!(meta.token_endpoint().as_str(), TOKEN_URL);
    assert_eq!(meta.jwks_uri().as_str(), JWKS_URL);
    assert_eq!(meta.revocation_endpoint.as_ref().unwrap().as_str(), REVOCATION_URL);
    assert_eq!(meta.registration_endpoint.as_ref().unwrap().as_str(), REGISTRATION_URL);
    assert!(meta.account_management_uri.is_none());
}

#[test]
fn test_discover_insecure_mode_mismatch() {
    let m = MockImpl::new();
    match m.discover(true) {
        Err(OauthDiscoveryError::Validation(MetadataError::UrlNonHttpsScheme(field, u))) => {
            assert_eq!(field, MOCKING_BACKEND);
            assert_eq!(field, "mocking backend");
            assert_eq!(u.as_source(), ISSUER_URL);
        }
        other => panic!("unexpected answer: {:?}", other),
    }
}

#[test]
fn test_mark_insecure_swaps_accepted_mode() {
    let m = MockImpl::new().mark_insecure();
    assert!(m.discover(true).is_ok());
    match m.discover(false) {
        Err(OauthDiscoveryError::Validation(MetadataError::UrlNonHttpsScheme(field, u))) => {
            assert_eq!(field, "mocking backend");
            assert_eq!(u.as_source(), ISSUER_URL);
        }
        other => panic!("unexpected answer: {:?}", other),
    }
}

#[test]
fn test_plain_http_registration_endpoint_is_refused() {
    let m = MockImpl::new().registration_endpoint(Some(url("http://oidc.example.com/register")));
    match m.discover(false) {
        Err(OauthDiscoveryError::Validation(MetadataError::Refused(_))) => {}
        other => panic!("unexpected answer: {:?}", other),
    }
}

#[test]
fn test_no_registration_endpoint_still_validates() {
    let m = MockImpl::new().registration_endpoint(None);
    let meta = m.discover(false).expect("validates");
    assert!(meta.registration_endpoint.is_none());
}

#[test]
fn test_account_management_uri_is_advertised() {
    let m = MockImpl::new().account_management_uri("https://oidc.example.com/account".to_owned());
    let meta = m.try_discover(false).expect("the URI parses").expect("validates");
    assert_eq!(
        meta.account_management_uri.as_ref().unwrap().as_str(),
        "https://oidc.example.com/account"
    );
}

#[test]
fn test_unparsable_account_management_uri() {
    let m = MockImpl::new().account_management_uri("no url at all".to_owned());
    assert!(m.try_discover(false).is_none());
    // The security mode is checked before the URI is parsed.
    match m.try_discover(true) {
        Some(Err(OauthDiscoveryError::Validation(MetadataError::UrlNonHttpsScheme(field, u)))) => {
            assert_eq!(field, "mocking backend");
            assert_eq!(u.as_source(), ISSUER_URL);
            assert_eq!(u.url().as_str(), ISSUER_URL);
        }
        other => panic!("unexpected answer: {:?}", other),
    }
    match m.discover(true) {
        Err(OauthDiscoveryError::Validation(MetadataError::UrlNonHttpsScheme(..))) => {}
        other => panic!("unexpected answer: {:?}", other),
    }
}

#[test]
fn test_discovery_is_deterministic() {
    let m = MockImpl::new().account_management_uri("https://oidc.example.com/account".to_owned());
    let a = m.discover(false).expect("validates");
    let b = m.discover(false).expect("validates");
    assert_eq!(format!("{:?}", a), format!("{:?}", b));
    assert_eq!(m.num_refreshes(), 0);
    assert!(m.revoked_tokens().is_empty());
}

#[test]
fn test_parsed_url_holds_the_parse_of_its_text() {
    let u = url("HTTPS://Oidc.Example.com/a/../b");
    assert_eq!(u.as_source(), "HTTPS://Oidc.Example.com/a/../b");
    assert_eq!(u.url().as_str(), "https://oidc.example.com/b");
    assert_eq!(u.clone().url(), u.url());
    assert_eq!(u.into_url().as_str(), "https://oidc.example.com/b");
}

#[test]
fn test_trade_authorization_code_hands_out_next_tokens() {
    let m = MockImpl::new().next_session_tokens(tokens("access", Some("refresh")));
    assert!(m.has_next_session_tokens());
    let t = m.trade_authorization_code_for_tokens().expect("tokens");
    assert_eq!(t.access_token, "access");
    assert_eq!(t.refresh_token.as_deref(), Some("refresh"));
    assert!(t.latest_id_token.is_none());
}

#[test]
fn test_register_client() {
    let m = MockImpl::new();
    let c = m.register_client().expect("registered");
    assert_eq!(c.client_id, CLIENT_ID);
    assert_eq!(c.client_id, "test_client_id");
    assert!(c.client_secret.is_none());
    assert!(c.client_id_issued_at.is_none());
    assert!(c.client_secret_expires_at.is_none());
}

#[test]
fn test_revoked_tokens_are_kept_in_order() {
    let mut m = MockImpl::new();
    assert!(m.revoke_token("first".to_owned()).is_ok());
    assert!(m.revoke_token("second".to_owned()).is_ok());
    assert!(m.revoke_token("first".to_owned()).is_ok());
    assert_eq!(m.revoked_tokens(), &vec!["first".to_owned(), "second".to_owned(), "first".to_owned()]);
    assert_eq!(m.num_refreshes(), 0);
}

#[test]
fn test_refresh_with_expected_token() {
    let mut m = MockImpl::new()
        .next_session_tokens(tokens("new_access", Some("new_refresh")))
        .expected_refresh_token("old_refresh".to_owned());
    let t = m.refresh_access_token("old_refresh".to_owned()).expect("refreshed");
    assert_eq!(t.access_token, "new_access");
    assert_eq!(t.refresh_token.as_deref(), Some("new_refresh"));
    assert_eq!(m.num_refreshes(), 1);
}

fn assert_invalid_grant(r: Result<oidc_mock::tokens::RefreshedSessionTokens, OidcError>) {
    match r {
        Err(OidcError::TokenRefreshHttp(h)) => {
            assert_eq!(h.status, 400);
            let body = h.body.expect("an error body");
            assert_eq!(body.error, ClientErrorCode::InvalidGrant);
            assert!(body.error_description.is_none());
        }
        other => panic!("unexpected answer: {:?}", other),
    }
}

#[test]
fn test_refresh_with_wrong_token_is_invalid_grant() {
    let mut m = MockImpl::new()
        .next_session_tokens(tokens("new_access", None))
        .expected_refresh_token("good".to_owned());
    assert_invalid_grant(m.refresh_access_token("bad".to_owned()));
    assert_eq!(m.num_refreshes(), 0);
}

#[test]
fn test_refresh_without_expected_token_is_invalid_grant() {
    let mut m = MockImpl::new().next_session_tokens(tokens("a", None));
    assert!(m.can_refresh_with(&"anything".to_owned()));
    assert_invalid_grant(m.refresh_access_token("anything".to_owned()));
    assert_eq!(m.num_refreshes(), 0);
}

#[test]
fn test_refresh_counter_counts_accepted_attempts() {
    let mut m = MockImpl::new()
        .next_session_tokens(tokens("a", Some("r")))
        .expected_refresh_token("t".to_owned());
    for token in ["t", "x", "t", "t", "y"] {
        let _ = m.refresh_access_token(token.to_owned());
    }
    assert_eq!(m.num_refreshes(), 3);
    assert!(m.revoked_tokens().is_empty());
}

#[test]
fn test_can_refresh_needs_next_tokens() {
    let m = MockImpl::new().expected_refresh_token("t".to_owned());
    assert!(!m.can_refresh_with(&"t".to_owned()));
    assert!(m.can_refresh_with(&"u".to_owned()));
}

#[test]
fn test_later_builder_call_wins() {
    let mut m = MockImpl::new()
        .expected_refresh_token("first".to_owned())
        .expected_refresh_token("second".to_owned())
        .next_session_tokens(tokens("a1", None))
        .next_session_tokens(tokens("a2", None));
    assert_invalid_grant(m.refresh_access_token("first".to_owned()));
    let t = m.refresh_access_token("second".to_owned()).expect("refreshed");
    assert_eq!(t.access_token, "a2");
}

#[test]
fn test_revocation_and_refresh_do_not_interfere() {
    let mut m = MockImpl::new()
        .next_session_tokens(tokens("a", None))
        .expected_refresh_token("t".to_owned());
    m.revoke_token("t".to_owned()).unwrap();
    assert!(m.refresh_access_token("t".to_owned()).is_ok());
    assert_eq!(m.revoked_tokens(), &vec!["t".to_owned()]);
    assert!(m.discover(false).is_ok());
}
