//! What holds of the backend across its operations.

use vstd::prelude::*;
use crate::mock::{
    after_refresh, after_revoke, discovery_mode_matches, initial_view, marked_insecure,
    metadata_accepted, refresh_accepted, refreshed_tokens, with_account_management_uri,
    with_expected_refresh_token, with_next_session_tokens, with_registration_endpoint, MockView,
};
use crate::mock::{
    advertised_metadata, discovery_answer, AUTHORIZATION_URL, ISSUER_URL, JWKS_URL,
    REVOCATION_URL, TOKEN_URL,
};
use crate::metadata::{MetadataError, OauthDiscoveryError};
use crate::tokens::SessionTokensView;
use mas_oidc_client::types::oidc::VerifiedProviderMetadata;

verus! {

/// The state after refresh attempts with the tokens of `ts`, in order.
pub open spec fn refresh_all(m: MockView, ts: Seq<Seq<char>>) -> MockView
    decreases ts.len(),
{
    if ts.len() == 0 {
        m
    } else {
        refresh_all(after_refresh(m, ts[0]), ts.drop_first())
    }
}

/// How many tokens of `ts` equal `expected`.
pub open spec fn count_matching(expected: Option<Seq<char>>, ts: Seq<Seq<char>>) -> nat
    decreases ts.len(),
{
    if ts.len() == 0 {
        0
    } else {
        (if expected == Some(ts[0]) { 1nat } else { 0nat }) + count_matching(
            expected,
            ts.drop_first(),
        )
    }
}

/// The state after revoking the tokens of `ts`, in order.
pub open spec fn revoke_all(m: MockView, ts: Seq<Seq<char>>) -> MockView
    decreases ts.len(),
{
    if ts.len() == 0 {
        m
    } else {
        revoke_all(after_revoke(m, ts[0]), ts.drop_first())
    }
}

/// Once the expected refresh token and the next session tokens are
/// configured, a refresh with that token is accepted, hands out the
/// configured access and refresh tokens, counts one refresh, and leaves
/// the configuration as it was, so the same refresh is accepted again.
pub proof fn configured_refresh_succeeds(
    m: MockView,
    expected: Seq<char>,
    tokens: SessionTokensView,
)
    ensures
        ({
            let c = with_next_session_tokens(with_expected_refresh_token(m, expected), tokens);
            &&& refresh_accepted(c, expected)
            &&& refreshed_tokens(c.next_session_tokens.unwrap()) == refreshed_tokens(tokens)
            &&& after_refresh(c, expected).num_refreshes == m.num_refreshes + 1
            &&& refresh_accepted(after_refresh(c, expected), expected)
            &&& after_refresh(c, expected).next_session_tokens == Some(tokens)
        }),
{
}

/// A refresh that is refused changes nothing; with no expected refresh
/// token every refresh is refused.
pub proof fn refused_refresh_changes_nothing(m: MockView, token: Seq<char>)
    ensures
        !refresh_accepted(m, token) ==> after_refresh(m, token) == m,
        m.expected_refresh_token is None ==> !refresh_accepted(m, token),
{
}

/// Over any run of refresh attempts, the refresh counter grows by the
/// number of attempts whose token equals the expected one, and nothing else
/// of the state changes.
pub proof fn refresh_counter_counts_accepted(m: MockView, ts: Seq<Seq<char>>)
    ensures
        refresh_all(m, ts) == (MockView {
            num_refreshes: m.num_refreshes + count_matching(m.expected_refresh_token, ts),
            ..m
        }),
    decreases ts.len(),
{
    if ts.len() > 0 {
        let m1 = after_refresh(m, ts[0]);
        refresh_counter_counts_accepted(m1, ts.drop_first());
        assert(m1.expected_refresh_token == m.expected_refresh_token);
    }
}

/// Over any run of revocations, the revoked tokens are those revoked
/// before followed by the new ones in order, and nothing else of the state
/// changes.
pub proof fn revocations_append_in_order(m: MockView, ts: Seq<Seq<char>>)
    ensures
        revoke_all(m, ts) == (MockView { revoked_tokens: m.revoked_tokens + ts, ..m }),
    decreases ts.len(),
{
    if ts.len() > 0 {
        revocations_append_in_order(after_revoke(m, ts[0]), ts.drop_first());
        assert(m.revoked_tokens.push(ts[0]) + ts.drop_first() =~= m.revoked_tokens + ts);
    }
}

/// Revoking a token and refreshing do not interfere: whether a refresh is
/// accepted does not depend on revocations, and the two orders of a
/// revocation and a refresh give the same state.
pub proof fn revocation_and_refresh_commute(m: MockView, revoked: Seq<char>, token: Seq<char>)
    ensures
        refresh_accepted(after_revoke(m, revoked), token) == refresh_accepted(m, token),
        after_refresh(after_revoke(m, revoked), token) == after_revoke(
            after_refresh(m, token),
            revoked,
        ),
{
}

/// Exactly one security mode passes the discovery mode check: a new
/// backend accepts only secure discovery, and one marked insecure accepts
/// only insecure discovery.
pub proof fn discovery_mode_is_exclusive(m: MockView)
    ensures
        discovery_mode_matches(m, true) != discovery_mode_matches(m, false),
        discovery_mode_matches(initial_view(), false),
        !discovery_mode_matches(initial_view(), true),
        discovery_mode_matches(marked_insecure(m), true),
        !discovery_mode_matches(marked_insecure(m), false),
{
}

/// Marking the backend insecure only changes which security mode passes
/// the mode check: whether the advertised metadata validates stays as it
/// was.
pub proof fn insecure_mode_keeps_metadata(m: MockView)
    ensures
        metadata_accepted(marked_insecure(m)) == metadata_accepted(m),
{
}

/// Each builder changes only its own setting, and a later call of the same
/// builder replaces the earlier setting.
pub proof fn builders_set_last_value(
    m: MockView,
    t1: Seq<char>,
    t2: Seq<char>,
    s1: SessionTokensView,
    s2: SessionTokensView,
)
    ensures
        with_expected_refresh_token(with_expected_refresh_token(m, t1), t2)
            == with_expected_refresh_token(m, t2),
        with_next_session_tokens(with_next_session_tokens(m, s1), s2) == with_next_session_tokens(
            m,
            s2,
        ),
        with_account_management_uri(with_account_management_uri(m, t1), t2)
            == with_account_management_uri(m, t2),
        marked_insecure(marked_insecure(m)) == marked_insecure(m),
        with_expected_refresh_token(with_next_session_tokens(m, s1), t1)
            == with_next_session_tokens(with_expected_refresh_token(m, t1), s1),
{
}

/// Whether discovery succeeds depends on the security mode and on the
/// registration endpoint and account management URI alone: refreshes and
/// revocations never change it.
pub proof fn discovery_ignores_session_activity(m: MockView, t: Seq<char>, insecure: bool)
    ensures
        discovery_mode_matches(after_refresh(m, t), insecure) == discovery_mode_matches(m, insecure),
        metadata_accepted(after_refresh(m, t)) == metadata_accepted(m),
        discovery_mode_matches(after_revoke(m, t), insecure) == discovery_mode_matches(m, insecure),
        metadata_accepted(after_revoke(m, t)) == metadata_accepted(m),
{
}

/// A refresh is accepted exactly when its token equals the expected
/// refresh token: any other token, and every token when none is expected,
/// is refused.
pub proof fn refresh_accepts_only_expected_token(m: MockView, t: Seq<char>, other: Seq<char>)
    ensures
        refresh_accepted(m, t) <==> m.expected_refresh_token == Some(t),
        refresh_accepted(m, t) && other != t ==> !refresh_accepted(m, other),
{
}

/// The refresh token that an accepted refresh hands out is itself refused
/// by the next refresh, unless it happens to equal the expected one: the
/// mock never switches to the tokens it hands out.
pub proof fn handed_out_refresh_token_is_refused(
    m: MockView,
    expected: Seq<char>,
    next: SessionTokensView,
    handed_out: Seq<char>,
)
    requires
        m.expected_refresh_token == Some(expected),
        m.next_session_tokens == Some(next),
        next.refresh_token == Some(handed_out),
        handed_out != expected,
    ensures
        refreshed_tokens(next).refresh_token == Some(handed_out),
        !refresh_accepted(after_refresh(m, expected), handed_out),
        after_refresh(after_refresh(m, expected), handed_out) == after_refresh(m, expected),
        after_refresh(m, expected).num_refreshes == m.num_refreshes + 1,
{
}

/// An accepted refresh hands out exactly the access token and the refresh
/// token of the configured next session tokens; their ID token plays no
/// part.
pub proof fn refreshed_tokens_copy_next_tokens(t1: SessionTokensView, t2: SessionTokensView)
    ensures
        refreshed_tokens(t1).access_token == t1.access_token,
        refreshed_tokens(t1).refresh_token == t1.refresh_token,
        t1.access_token == t2.access_token && t1.refresh_token == t2.refresh_token
            ==> refreshed_tokens(t1) == refreshed_tokens(t2),
{
}

/// The metadata that discovery validates advertises the fixed endpoints,
/// exactly the configured registration endpoint and account management
/// URI, and the supported-value lists; nothing else of the state (tokens,
/// refreshes, revocations, security mode) affects it, and each of the two
/// settings leaves the other as it was.
pub proof fn advertised_metadata_follows_configuration(
    m1: MockView,
    m2: MockView,
    u: Seq<char>,
    r: Option<Seq<char>>,
)
    ensures
        advertised_metadata(m1).issuer == ISSUER_URL@,
        advertised_metadata(m1).authorization_endpoint == AUTHORIZATION_URL@,
        advertised_metadata(m1).revocation_endpoint == REVOCATION_URL@,
        advertised_metadata(m1).token_endpoint == TOKEN_URL@,
        advertised_metadata(m1).jwks_uri == JWKS_URL@,
        advertised_metadata(m1).registration_endpoint == m1.registration_endpoint,
        advertised_metadata(m1).account_management_uri == m1.account_management_uri,
        advertised_metadata(m1).response_types_supported,
        advertised_metadata(m1).subject_types_supported,
        advertised_metadata(m1).id_token_signing_alg_values_supported,
        m1.registration_endpoint == m2.registration_endpoint && m1.account_management_uri
            == m2.account_management_uri ==> advertised_metadata(m1) == advertised_metadata(m2),
        advertised_metadata(with_account_management_uri(m1, u)).registration_endpoint
            == m1.registration_endpoint,
        advertised_metadata(with_registration_endpoint(m1, r)).account_management_uri
            == m1.account_management_uri,
{
}

/// Every builder takes effect whatever was configured before: it sets its
/// own setting to the given value and keeps all others, so builders for
/// different settings can be called in any order.
pub proof fn builders_always_take_effect(
    m: MockView,
    r: Option<Seq<char>>,
    u: Seq<char>,
    t: Seq<char>,
    s: SessionTokensView,
)
    ensures
        with_registration_endpoint(m, r).registration_endpoint == r,
        with_account_management_uri(m, u).account_management_uri == Some(u),
        with_expected_refresh_token(m, t).expected_refresh_token == Some(t),
        with_next_session_tokens(m, s).next_session_tokens == Some(s),
        marked_insecure(m).is_insecure,
        with_registration_endpoint(marked_insecure(m), r) == marked_insecure(
            with_registration_endpoint(m, r),
        ),
        with_account_management_uri(with_next_session_tokens(m, s), u)
            == with_next_session_tokens(with_account_management_uri(m, u), s),
        with_registration_endpoint(with_account_management_uri(m, u), r)
            == with_account_management_uri(with_registration_endpoint(m, r), u),
        with_registration_endpoint(with_registration_endpoint(m, None), r)
            == with_registration_endpoint(m, r),
{
}

/// Whether two discovery answers agree: the same validated metadata, the
/// same validation error, or mode errors for the same field and URL.
pub open spec fn same_discovery_answer(
    r1: Result<VerifiedProviderMetadata, OauthDiscoveryError>,
    r2: Result<VerifiedProviderMetadata, OauthDiscoveryError>,
) -> bool {
    match (r1, r2) {
        (Ok(a), Ok(b)) => a == b,
        (
            Err(OauthDiscoveryError::Validation(MetadataError::Refused(a))),
            Err(OauthDiscoveryError::Validation(MetadataError::Refused(b))),
        ) => a == b,
        (
            Err(OauthDiscoveryError::Validation(MetadataError::UrlNonHttpsScheme(f1, u1))),
            Err(OauthDiscoveryError::Validation(MetadataError::UrlNonHttpsScheme(f2, u2))),
        ) => f1@ == f2@ && u1@ == u2@ && u1.parsed() == u2.parsed(),
        _ => false,
    }
}

/// Discovery is deterministic: two discoveries in the same security mode
/// from the same state give the same answer.
pub proof fn discovery_is_deterministic(
    m: MockView,
    insecure: bool,
    r1: Result<VerifiedProviderMetadata, OauthDiscoveryError>,
    r2: Result<VerifiedProviderMetadata, OauthDiscoveryError>,
)
    requires
        discovery_answer(m, insecure, r1),
        discovery_answer(m, insecure, r2),
    ensures
        same_discovery_answer(r1, r2),
{
}

} // verus!
