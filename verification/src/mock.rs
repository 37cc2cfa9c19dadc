//! The mock backend: its state, how the builders configure it, and how it
//! answers discovery, code exchange, registration, revocation and refresh.

use vstd::prelude::*;
use crate::url_value::{parsed_url, url_parses, ParsedUrl};
use crate::metadata::{
    metadata_valid, validate, validation_answer, MetadataError, MetadataRecord, MetadataView,
    OauthDiscoveryError,
};
use crate::tokens::{
    invalid_grant_error, is_invalid_grant_error, opt_str, ClientRegistrationResponse,
    OidcError, OidcSessionTokens, RefreshedSessionTokens, RefreshedTokensView, SessionTokensView,
};
use mas_oidc_client::types::oidc::VerifiedProviderMetadata;

verus! {

pub const ISSUER_URL: &'static str = "https://oidc.example.com/issuer";
pub const AUTHORIZATION_URL: &'static str = "https://oidc.example.com/authorization";
pub const REVOCATION_URL: &'static str = "https://oidc.example.com/revocation";
pub const REGISTRATION_URL: &'static str = "https://oidc.example.com/register";
pub const TOKEN_URL: &'static str = "https://oidc.example.com/token";
pub const JWKS_URL: &'static str = "https://oidc.example.com/jwks";
pub const CLIENT_ID: &'static str = "test_client_id";

/// The field named in the error of a discovery whose security mode does
/// not match the backend's.
pub const MOCKING_BACKEND: &'static str = "mocking backend";

/// Whether all the fixed URLs of the backend parse.
pub open spec fn fixed_urls_parse() -> bool {
    &&& url_parses(ISSUER_URL@)
    &&& url_parses(AUTHORIZATION_URL@)
    &&& url_parses(REVOCATION_URL@)
    &&& url_parses(REGISTRATION_URL@)
    &&& url_parses(TOKEN_URL@)
    &&& url_parses(JWKS_URL@)
}

/// The abstract state of the backend: what its builders configure and what
/// its answers change. The issuer and the other fixed endpoints are the
/// constants of this module.
pub struct MockView {
    pub registration_endpoint: Option<Seq<char>>,
    pub account_management_uri: Option<Seq<char>>,
    pub next_session_tokens: Option<SessionTokensView>,
    pub expected_refresh_token: Option<Seq<char>>,
    pub num_refreshes: nat,
    pub revoked_tokens: Seq<Seq<char>>,
    pub is_insecure: bool,
}

/// A test implementation of an OpenID Connect provider backend.
#[derive(Debug)]
pub struct MockImpl {
    issuer: String,
    authorization_endpoint: String,
    token_endpoint: String,
    jwks_uri: String,
    revocation_endpoint: String,
    registration_endpoint: Option<ParsedUrl>,
    account_management_uri: Option<String>,
    /// The next session tokens that a login or a refresh hands out.
    next_session_tokens: Option<OidcSessionTokens>,
    /// The refresh token that a refresh expects.
    expected_refresh_token: Option<String>,
    /// How many refreshes succeeded.
    num_refreshes: u32,
    /// The tokens revoked so far, in order.
    revoked_tokens: Vec<String>,
    /// Whether discovery is accepted only in insecure mode.
    is_insecure: bool,
}

pub open spec fn opt_tokens(t: Option<OidcSessionTokens>) -> Option<SessionTokensView> {
    match t {
        Some(t) => Some(t@),
        None => None,
    }
}

impl View for MockImpl {
    type V = MockView;

    closed spec fn view(&self) -> MockView {
        MockView {
            registration_endpoint: ParsedUrl::opt_view(self.registration_endpoint),
            account_management_uri: opt_str(self.account_management_uri),
            next_session_tokens: opt_tokens(self.next_session_tokens),
            expected_refresh_token: opt_str(self.expected_refresh_token),
            num_refreshes: self.num_refreshes as nat,
            revoked_tokens: self.revoked_tokens@.map_values(|s: String| s@),
            is_insecure: self.is_insecure,
        }
    }
}

/// The state of a newly made backend.
pub open spec fn initial_view() -> MockView {
    MockView {
        registration_endpoint: Some(REGISTRATION_URL@),
        account_management_uri: None,
        next_session_tokens: None,
        expected_refresh_token: None,
        num_refreshes: 0,
        revoked_tokens: Seq::empty(),
        is_insecure: false,
    }
}

pub open spec fn with_next_session_tokens(m: MockView, t: SessionTokensView) -> MockView {
    MockView { next_session_tokens: Some(t), ..m }
}

pub open spec fn with_expected_refresh_token(m: MockView, t: Seq<char>) -> MockView {
    MockView { expected_refresh_token: Some(t), ..m }
}

pub open spec fn marked_insecure(m: MockView) -> MockView {
    MockView { is_insecure: true, ..m }
}

pub open spec fn with_registration_endpoint(m: MockView, r: Option<Seq<char>>) -> MockView {
    MockView { registration_endpoint: r, ..m }
}

pub open spec fn with_account_management_uri(m: MockView, u: Seq<char>) -> MockView {
    MockView { account_management_uri: Some(u), ..m }
}

/// Whether discovery in the given security mode gets past the mode check.
pub open spec fn discovery_mode_matches(m: MockView, insecure: bool) -> bool {
    insecure == m.is_insecure
}

/// The metadata that the backend advertises: the fixed endpoints, the
/// configured registration endpoint and account management URI, and empty
/// lists of supported response types, subject types and ID token signing
/// algorithms.
pub open spec fn advertised_metadata(m: MockView) -> MetadataView {
    MetadataView {
        issuer: ISSUER_URL@,
        authorization_endpoint: AUTHORIZATION_URL@,
        revocation_endpoint: REVOCATION_URL@,
        token_endpoint: TOKEN_URL@,
        registration_endpoint: m.registration_endpoint,
        jwks_uri: JWKS_URL@,
        account_management_uri: m.account_management_uri,
        response_types_supported: true,
        subject_types_supported: true,
        id_token_signing_alg_values_supported: true,
    }
}

/// Whether the metadata that the backend advertises passes validation.
pub open spec fn metadata_accepted(m: MockView) -> bool {
    metadata_valid(advertised_metadata(m), ISSUER_URL@)
}

/// Whether the configured account management URI, if any, parses.
pub open spec fn account_uri_parses(m: MockView) -> bool {
    m.account_management_uri matches Some(u) ==> url_parses(u)
}

/// What discovery answers, given the state and the security mode.
pub open spec fn discovery_answer(
    m: MockView,
    insecure: bool,
    r: Result<VerifiedProviderMetadata, OauthDiscoveryError>,
) -> bool {
    if !discovery_mode_matches(m, insecure) {
        r matches Err(OauthDiscoveryError::Validation(MetadataError::UrlNonHttpsScheme(f, u)))
            && f@ == MOCKING_BACKEND@ && u@ == ISSUER_URL@ && u.parsed() == parsed_url(ISSUER_URL@)
    } else {
        validation_answer(advertised_metadata(m), ISSUER_URL@, r)
    }
}

/// Whether a refresh with `token` is accepted.
pub open spec fn refresh_accepted(m: MockView, token: Seq<char>) -> bool {
    m.expected_refresh_token == Some(token)
}

/// Whether a refresh with `token` can run without a panic: an accepted one
/// needs room in the refresh counter and configured next tokens.
pub open spec fn refresh_possible(m: MockView, token: Seq<char>) -> bool {
    refresh_accepted(m, token) ==> m.num_refreshes < u32::MAX && m.next_session_tokens is Some
}

/// The state after a refresh with `token`.
pub open spec fn after_refresh(m: MockView, token: Seq<char>) -> MockView {
    if refresh_accepted(m, token) {
        MockView { num_refreshes: m.num_refreshes + 1, ..m }
    } else {
        m
    }
}

/// The tokens that an accepted refresh hands out.
pub open spec fn refreshed_tokens(t: SessionTokensView) -> RefreshedTokensView {
    RefreshedTokensView { access_token: t.access_token, refresh_token: t.refresh_token }
}

/// The state after revoking `token`.
pub open spec fn after_revoke(m: MockView, token: Seq<char>) -> MockView {
    MockView { revoked_tokens: m.revoked_tokens.push(token), ..m }
}

/// A URL that is known to parse.
fn parse_known(s: &str) -> (u: ParsedUrl)
    requires
        url_parses(s@),
    ensures
        u@ == s@,
        u.parsed() == parsed_url(s@),
{
    match ParsedUrl::parse(s) {
        Some(u) => u,
        None => unreached(),
    }
}

impl MockImpl {
    #[verifier::type_invariant]
    closed spec fn fixed_endpoints(self) -> bool {
        &&& self.issuer@ == ISSUER_URL@
        &&& self.authorization_endpoint@ == AUTHORIZATION_URL@
        &&& self.token_endpoint@ == TOKEN_URL@
        &&& self.jwks_uri@ == JWKS_URL@
        &&& self.revocation_endpoint@ == REVOCATION_URL@
        &&& fixed_urls_parse()
    }

    /// A backend with the fixed endpoints, the registration endpoint set,
    /// nothing else configured, no refresh and no revocation yet, in secure
    /// mode. The fixed URLs must parse (see [`MockImpl::try_new`]).
    pub fn new() -> (m: Self)
        requires
            fixed_urls_parse(),
        ensures
            m@ == initial_view(),
    {
        let registration = parse_known(REGISTRATION_URL);
        let m = MockImpl {
            issuer: ISSUER_URL.to_owned(),
            authorization_endpoint: AUTHORIZATION_URL.to_owned(),
            token_endpoint: TOKEN_URL.to_owned(),
            jwks_uri: JWKS_URL.to_owned(),
            revocation_endpoint: REVOCATION_URL.to_owned(),
            registration_endpoint: Some(registration),
            next_session_tokens: None,
            expected_refresh_token: None,
            account_management_uri: None,
            num_refreshes: 0,
            revoked_tokens: Vec::new(),
            is_insecure: false,
        };
        assert(m@.revoked_tokens =~= Seq::<Seq<char>>::empty());
        m
    }

    /// [`MockImpl::new`] after checking that the fixed URLs parse; `None`
    /// when one of them does not.
    pub fn try_new() -> (r: Option<Self>)
        ensures
            (r is Some) <==> fixed_urls_parse(),
            (r matches Some(m) ==> m@ == initial_view()),
    {
        if ParsedUrl::parse(ISSUER_URL).is_some() && ParsedUrl::parse(AUTHORIZATION_URL).is_some()
            && ParsedUrl::parse(REVOCATION_URL).is_some() && ParsedUrl::parse(
            REGISTRATION_URL,
        ).is_some() && ParsedUrl::parse(TOKEN_URL).is_some() && ParsedUrl::parse(
            JWKS_URL,
        ).is_some() {
            Some(Self::new())
        } else {
            None
        }
    }

    /// Sets the tokens that the next login or refresh hands out.
    pub fn next_session_tokens(self, next_session_tokens: OidcSessionTokens) -> (r: Self)
        ensures
            r@ == with_next_session_tokens(self@, next_session_tokens@),
            r@ == (MockView { next_session_tokens: Some(next_session_tokens@), ..self@ }),
    {
        let mut m = self;
        proof {
            use_type_invariant(&m);
        }
        m.next_session_tokens = Some(next_session_tokens);
        m
    }

    /// Sets the refresh token that a refresh expects.
    pub fn expected_refresh_token(self, refresh_token: String) -> (r: Self)
        ensures
            r@ == with_expected_refresh_token(self@, refresh_token@),
            r@ == (MockView { expected_refresh_token: Some(refresh_token@), ..self@ }),
    {
        let mut m = self;
        proof {
            use_type_invariant(&m);
        }
        m.expected_refresh_token = Some(refresh_token);
        m
    }

    /// Makes discovery succeed only in insecure mode.
    pub fn mark_insecure(self) -> (r: Self)
        ensures
            r@ == marked_insecure(self@),
            r@ == (MockView { is_insecure: true, ..self@ }),
    {
        let mut m = self;
        proof {
            use_type_invariant(&m);
        }
        m.is_insecure = true;
        m
    }

    /// Sets or clears the registration endpoint.
    pub fn registration_endpoint(self, registration_endpoint: Option<ParsedUrl>) -> (r: Self)
        ensures
            r@ == with_registration_endpoint(self@, ParsedUrl::opt_view(registration_endpoint)),
            r@ == (MockView {
                registration_endpoint: ParsedUrl::opt_view(registration_endpoint),
                ..self@
            }),
    {
        let mut m = self;
        proof {
            use_type_invariant(&m);
        }
        m.registration_endpoint = registration_endpoint;
        m
    }

    /// Sets the account management URI.
    pub fn account_management_uri(self, uri: String) -> (r: Self)
        ensures
            r@ == with_account_management_uri(self@, uri@),
            r@ == (MockView { account_management_uri: Some(uri@), ..self@ }),
    {
        let mut m = self;
        proof {
            use_type_invariant(&m);
        }
        m.account_management_uri = Some(uri);
        m
    }

    /// Discovers the provider metadata. When `insecure` differs from the
    /// backend's security mode, the answer is a non-https error for the
    /// field "mocking backend" with the issuer URL. Otherwise the advertised
    /// metadata (see [`advertised_metadata`]) is validated against the
    /// issuer, and the validated metadata or the validation error is the
    /// answer. When the modes match, the account management URI, if set,
    /// must parse (see [`MockImpl::try_discover`]).
    pub fn discover(&self, insecure: bool) -> (r: Result<VerifiedProviderMetadata, OauthDiscoveryError>)
        requires
            discovery_mode_matches(self@, insecure) ==> account_uri_parses(self@),
        ensures
            discovery_answer(self@, insecure, r),
            insecure == self@.is_insecure ==> validation_answer(
                MetadataView {
                    issuer: ISSUER_URL@,
                    authorization_endpoint: AUTHORIZATION_URL@,
                    revocation_endpoint: REVOCATION_URL@,
                    token_endpoint: TOKEN_URL@,
                    registration_endpoint: self@.registration_endpoint,
                    jwks_uri: JWKS_URL@,
                    account_management_uri: self@.account_management_uri,
                    response_types_supported: true,
                    subject_types_supported: true,
                    id_token_signing_alg_values_supported: true,
                },
                ISSUER_URL@,
                r,
            ),
    {
        proof {
            use_type_invariant(self);
        }
        if insecure != self.is_insecure {
            let issuer = parse_known(self.issuer.as_str());
            return Err(
                OauthDiscoveryError::Validation(
                    MetadataError::UrlNonHttpsScheme(MOCKING_BACKEND, issuer),
                ),
            );
        }
        let registration_endpoint = match &self.registration_endpoint {
            Some(u) => Some(u.clone()),
            None => None,
        };
        let account_management_uri = match &self.account_management_uri {
            Some(u) => Some(parse_known(u.as_str())),
            None => None,
        };
        let record = MetadataRecord {
            issuer: self.issuer.clone(),
            authorization_endpoint: parse_known(self.authorization_endpoint.as_str()),
            revocation_endpoint: parse_known(self.revocation_endpoint.as_str()),
            token_endpoint: parse_known(self.token_endpoint.as_str()),
            registration_endpoint,
            jwks_uri: parse_known(self.jwks_uri.as_str()),
            account_management_uri,
            response_types_supported: true,
            subject_types_supported: true,
            id_token_signing_alg_values_supported: true,
        };
        validate(record, self.issuer.as_str())
    }

    /// [`MockImpl::discover`] after checking, when the security modes
    /// match, that the account management URI, if set, parses; `None` when
    /// it does not.
    pub fn try_discover(&self, insecure: bool) -> (r: Option<Result<VerifiedProviderMetadata, OauthDiscoveryError>>)
        ensures
            (r is Some) <==> (discovery_mode_matches(self@, insecure) ==> account_uri_parses(
                self@,
            )),
            (r matches Some(d) ==> discovery_answer(self@, insecure, d)),
    {
        let parses = insecure != self.is_insecure || match &self.account_management_uri {
            Some(u) => ParsedUrl::parse(u.as_str()).is_some(),
            None => true,
        };
        if parses {
            Some(self.discover(insecure))
        } else {
            None
        }
    }

    /// Exchanges an authorization code for tokens: hands out the configured
    /// next session tokens, which must be set.
    pub fn trade_authorization_code_for_tokens(&self) -> (r: Result<OidcSessionTokens, OidcError>)
        requires
            (self@.next_session_tokens is Some),
        ensures
            (r matches Ok(t) && self@.next_session_tokens == Some(t@)),
    {
        match &self.next_session_tokens {
            Some(t) => Ok(t.clone()),
            None => unreached(),
        }
    }

    /// Registers a client: always the client ID [`CLIENT_ID`], with no
    /// secret and no times.
    pub fn register_client(&self) -> (r: Result<ClientRegistrationResponse, OidcError>)
        ensures
            (r matches Ok(c) && c.client_id@ == CLIENT_ID@ && c.client_secret is None
                && c.client_id_issued_at is None && c.client_secret_expires_at is None),
    {
        Ok(
            ClientRegistrationResponse {
                client_id: CLIENT_ID.to_owned(),
                client_secret: None,
                client_id_issued_at: None,
                client_secret_expires_at: None,
            },
        )
    }

    /// Revokes a token: records it after the tokens revoked before.
    pub fn revoke_token(&mut self, token: String) -> (r: Result<(), OidcError>)
        ensures
            (r is Ok),
            final(self)@ == after_revoke(old(self)@, token@),
    {
        proof {
            use_type_invariant(&*self);
        }
        let ghost t = token@;
        let mut revoked: Vec<String> = Vec::new();
        std::mem::swap(&mut revoked, &mut self.revoked_tokens);
        revoked.push(token);
        self.revoked_tokens = revoked;
        assert(self@.revoked_tokens =~= old(self)@.revoked_tokens.push(t));
        Ok(())
    }

    /// Refreshes the access token. A refresh token equal to the expected
    /// one is accepted: the refresh counter goes up by one and the access
    /// and refresh tokens of the configured next session tokens are handed
    /// out. Any other token, or none being expected, gets HTTP 400 with
    /// `invalid_grant`, and nothing changes.
    pub fn refresh_access_token(&mut self, refresh_token: String) -> (r: Result<RefreshedSessionTokens, OidcError>)
        requires
            refresh_possible(old(self)@, refresh_token@),
        ensures
            final(self)@ == after_refresh(old(self)@, refresh_token@),
            refresh_accepted(old(self)@, refresh_token@) ==> (r matches Ok(t)
                && t@ == refreshed_tokens(old(self)@.next_session_tokens.unwrap())),
            !refresh_accepted(old(self)@, refresh_token@) ==> (r matches Err(e)
                && is_invalid_grant_error(e)),
            (r is Ok) <==> old(self)@.expected_refresh_token == Some(refresh_token@),
            (r matches Ok(t) ==> old(self)@.next_session_tokens matches Some(n)
                && t.access_token@ == n.access_token && opt_str(t.refresh_token)
                == n.refresh_token),
            final(self)@ == (MockView {
                num_refreshes: if r is Ok {
                    old(self)@.num_refreshes + 1
                } else {
                    old(self)@.num_refreshes
                },
                ..old(self)@
            }),
    {
        proof {
            use_type_invariant(&*self);
        }
        let accepted = match &self.expected_refresh_token {
            Some(expected) => *expected == refresh_token,
            None => false,
        };
        if !accepted {
            Err(invalid_grant_error())
        } else {
            self.num_refreshes = self.num_refreshes + 1;
            let next_tokens = match &self.next_session_tokens {
                Some(t) => t.clone(),
                None => unreached(),
            };
            Ok(
                RefreshedSessionTokens {
                    access_token: next_tokens.access_token,
                    refresh_token: next_tokens.refresh_token,
                },
            )
        }
    }

    /// Whether next session tokens are configured, so that a code exchange
    /// can hand them out.
    pub fn has_next_session_tokens(&self) -> (r: bool)
        ensures
            r == (self@.next_session_tokens is Some),
    {
        self.next_session_tokens.is_some()
    }

    /// Whether a refresh with `refresh_token` runs without a panic: either
    /// it is refused, or the counter has room and next tokens are set.
    pub fn can_refresh_with(&self, refresh_token: &String) -> (r: bool)
        ensures
            r == refresh_possible(self@, refresh_token@),
    {
        let accepted = match &self.expected_refresh_token {
            Some(expected) => *expected == *refresh_token,
            None => false,
        };
        !accepted || (self.num_refreshes < u32::MAX && self.next_session_tokens.is_some())
    }

    /// How many refreshes succeeded.
    pub fn num_refreshes(&self) -> (r: u32)
        ensures
            r == self@.num_refreshes,
    {
        self.num_refreshes
    }

    /// The tokens revoked so far, in order.
    pub fn revoked_tokens(&self) -> (r: &Vec<String>)
        ensures
            r@.map_values(|s: String| s@) == self@.revoked_tokens,
    {
        &self.revoked_tokens
    }
}

} // verus!
