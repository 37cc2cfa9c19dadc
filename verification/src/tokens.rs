//! Session tokens, client registration answers and the errors of token
//! requests.

use vstd::prelude::*;

verus! {

/// Declares `http::status::InvalidStatusCode`; opaque.
#[verifier::external_type_specification]
#[verifier::external_body]
pub struct ExInvalidStatusCode(http::status::InvalidStatusCode);

/// Calls `http::StatusCode::from_u16` and gives the accepted code back as
/// its number (`StatusCode::as_u16`). Trusted as the `http` documentation
/// states it: the code is accepted exactly when it lies in 100..=999, and
/// an accepted status code stands for the number it was built from.
#[verifier::external_body]
fn status_code_from_u16(code: u16) -> (r: Result<u16, http::status::InvalidStatusCode>)
    ensures
        r is Ok <==> 100 <= code <= 999,
        r matches Ok(v) ==> v == code,
{
    match http::StatusCode::from_u16(code) {
        Ok(status) => Ok(status.as_u16()),
        Err(e) => Err(e),
    }
}

/// The abstract value of a set of session tokens.
pub struct SessionTokensView {
    pub access_token: Seq<char>,
    pub refresh_token: Option<Seq<char>>,
    pub latest_id_token: Option<Seq<char>>,
}

/// The view of an optional string.
pub open spec fn opt_str(s: Option<String>) -> Option<Seq<char>> {
    match s {
        Some(s) => Some(s@),
        None => None,
    }
}

fn clone_opt_string(s: &Option<String>) -> (r: Option<String>)
    ensures
        r == *s,
{
    match s {
        Some(t) => Some(t.clone()),
        None => None,
    }
}

/// The tokens of an OpenID Connect session. The ID token is kept in its
/// compact serialization.
#[derive(Debug)]
pub struct OidcSessionTokens {
    pub access_token: String,
    pub refresh_token: Option<String>,
    pub latest_id_token: Option<String>,
}

impl View for OidcSessionTokens {
    type V = SessionTokensView;

    open spec fn view(&self) -> SessionTokensView {
        SessionTokensView {
            access_token: self.access_token@,
            refresh_token: opt_str(self.refresh_token),
            latest_id_token: opt_str(self.latest_id_token),
        }
    }
}

impl Clone for OidcSessionTokens {
    fn clone(&self) -> (r: Self)
        ensures
            r == *self,
    {
        OidcSessionTokens {
            access_token: self.access_token.clone(),
            refresh_token: clone_opt_string(&self.refresh_token),
            latest_id_token: clone_opt_string(&self.latest_id_token),
        }
    }
}

/// The abstract value of refreshed tokens.
pub struct RefreshedTokensView {
    pub access_token: Seq<char>,
    pub refresh_token: Option<Seq<char>>,
}

/// The tokens that a refresh hands out.
#[derive(Debug)]
pub struct RefreshedSessionTokens {
    pub access_token: String,
    pub refresh_token: Option<String>,
}

impl View for RefreshedSessionTokens {
    type V = RefreshedTokensView;

    open spec fn view(&self) -> RefreshedTokensView {
        RefreshedTokensView {
            access_token: self.access_token@,
            refresh_token: opt_str(self.refresh_token),
        }
    }
}

/// The answer to a dynamic client registration. Times are seconds since
/// the Unix epoch.
#[derive(Debug)]
pub struct ClientRegistrationResponse {
    pub client_id: String,
    pub client_secret: Option<String>,
    pub client_id_issued_at: Option<i64>,
    pub client_secret_expires_at: Option<i64>,
}

/// The OAuth 2.0 error codes that the backend answers with.
#[derive(PartialEq, Eq, Structural, Clone, Copy, Debug)]
pub enum ClientErrorCode {
    /// The grant, here the refresh token, is invalid.
    InvalidGrant,
}

/// The body of an OAuth 2.0 error answer.
#[derive(Debug)]
pub struct ErrorBody {
    pub error: ClientErrorCode,
    pub error_description: Option<String>,
}

/// An HTTP error answered by the provider.
#[derive(Debug)]
pub struct HttpError {
    /// The HTTP status code, in 100..=999.
    pub status: u16,
    pub body: Option<ErrorBody>,
}

/// Errors of requests to the OpenID Connect provider.
#[derive(Debug)]
pub enum OidcError {
    /// Refreshing the access token failed at the token endpoint.
    TokenRefreshHttp(HttpError),
}

/// The HTTP status of a request that the provider found malformed.
pub const BAD_REQUEST: u16 = 400;

/// The error that a refused refresh token gets: HTTP 400 with the OAuth 2.0
/// error `invalid_grant` and no description.
pub fn invalid_grant_error() -> (e: OidcError)
    ensures
        is_invalid_grant_error(e),
{
    let status = match status_code_from_u16(BAD_REQUEST) {
        Ok(s) => s,
        Err(_) => unreached(),
    };
    OidcError::TokenRefreshHttp(HttpError {
        status,
        body: Some(ErrorBody { error: ClientErrorCode::InvalidGrant, error_description: None }),
    })
}

/// Whether `e` is HTTP 400 with the error `invalid_grant` and no description.
pub open spec fn is_invalid_grant_error(e: OidcError) -> bool {
    match e {
        OidcError::TokenRefreshHttp(h) => {
            &&& h.status == BAD_REQUEST
            &&& h.body matches Some(b)
            &&& b.error == ClientErrorCode::InvalidGrant
            &&& b.error_description is None
        },
    }
}

} // verus!
