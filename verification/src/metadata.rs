//! Provider metadata as the mock advertises it, and its validation by the
//! OpenID Connect client library.

use vstd::prelude::*;
use crate::url_value::ParsedUrl;
use mas_oidc_client::types::oidc::{
    ProviderMetadata, ProviderMetadataVerificationError, VerifiedProviderMetadata,
};

verus! {

/// Declares the validated provider metadata of `mas_oidc_client`; opaque.
#[verifier::external_type_specification]
#[verifier::external_body]
pub struct ExVerifiedProviderMetadata(VerifiedProviderMetadata);

/// Declares the metadata validation error of `mas_oidc_client`; opaque.
#[verifier::external_type_specification]
#[verifier::external_body]
pub struct ExProviderMetadataVerificationError(ProviderMetadataVerificationError);

/// The provider metadata that the mock hands to validation. URLs are kept
/// as parsed values. Each of the three lists of supported values (response
/// types, subject types, ID token signing algorithms) is either advertised
/// as an empty list (`true`) or left out (`false`); every other field of
/// the metadata is left out.
pub struct MetadataRecord {
    pub issuer: String,
    pub authorization_endpoint: ParsedUrl,
    pub revocation_endpoint: ParsedUrl,
    pub token_endpoint: ParsedUrl,
    pub registration_endpoint: Option<ParsedUrl>,
    pub jwks_uri: ParsedUrl,
    pub account_management_uri: Option<ParsedUrl>,
    pub response_types_supported: bool,
    pub subject_types_supported: bool,
    pub id_token_signing_alg_values_supported: bool,
}

/// The abstract value of a metadata record: the texts its URLs were parsed
/// from, and which supported-value lists it advertises.
pub struct MetadataView {
    pub issuer: Seq<char>,
    pub authorization_endpoint: Seq<char>,
    pub revocation_endpoint: Seq<char>,
    pub token_endpoint: Seq<char>,
    pub registration_endpoint: Option<Seq<char>>,
    pub jwks_uri: Seq<char>,
    pub account_management_uri: Option<Seq<char>>,
    pub response_types_supported: bool,
    pub subject_types_supported: bool,
    pub id_token_signing_alg_values_supported: bool,
}

impl View for MetadataRecord {
    type V = MetadataView;

    open spec fn view(&self) -> MetadataView {
        MetadataView {
            issuer: self.issuer@,
            authorization_endpoint: self.authorization_endpoint@,
            revocation_endpoint: self.revocation_endpoint@,
            token_endpoint: self.token_endpoint@,
            registration_endpoint: ParsedUrl::opt_view(self.registration_endpoint),
            jwks_uri: self.jwks_uri@,
            account_management_uri: ParsedUrl::opt_view(self.account_management_uri),
            response_types_supported: self.response_types_supported,
            subject_types_supported: self.subject_types_supported,
            id_token_signing_alg_values_supported: self.id_token_signing_alg_values_supported,
        }
    }
}

/// What `ProviderMetadata::validate` of `mas_oidc_client` answers for the
/// metadata that a record with this view describes (each URL being
/// `parsed_url` of its text), against the expected issuer text.
pub uninterp spec fn validation_result(
    m: MetadataView,
    expected_issuer: Seq<char>,
) -> Result<VerifiedProviderMetadata, ProviderMetadataVerificationError>;

/// Whether validation accepts the metadata described by `m`.
pub open spec fn metadata_valid(m: MetadataView, expected_issuer: Seq<char>) -> bool {
    validation_result(m, expected_issuer) is Ok
}

/// Builds a `ProviderMetadata` of `mas_oidc_client` from the record (field
/// by field; lists advertised as empty where the record says so, every
/// other field left out) and calls its `validate` with `expected_issuer`.
/// Trusted: the answer is `validation_result` of the record's view. Each
/// URL of the record is `parsed_url` of its text (the invariant of
/// `ParsedUrl`), and validation depends on its arguments alone.
#[verifier::external_body]
fn validate_metadata(m: MetadataRecord, expected_issuer: &str) -> (r: Result<
    VerifiedProviderMetadata,
    ProviderMetadataVerificationError,
>)
    ensures
        r == validation_result(m@, expected_issuer@),
{
    ProviderMetadata {
        issuer: Some(m.issuer),
        authorization_endpoint: Some(m.authorization_endpoint.into_url()),
        revocation_endpoint: Some(m.revocation_endpoint.into_url()),
        token_endpoint: Some(m.token_endpoint.into_url()),
        registration_endpoint: m.registration_endpoint.map(ParsedUrl::into_url),
        jwks_uri: Some(m.jwks_uri.into_url()),
        response_types_supported: m.response_types_supported.then_some(Vec::new()),
        subject_types_supported: m.subject_types_supported.then_some(Vec::new()),
        id_token_signing_alg_values_supported: m.id_token_signing_alg_values_supported.then_some(Vec::new()),
        account_management_uri: m.account_management_uri.map(ParsedUrl::into_url),
        ..Default::default()
    }.validate(expected_issuer)
}

/// Why validation of provider metadata failed.
#[derive(Debug)]
pub enum MetadataError {
    /// A URL does not use the `https` scheme; the field that holds it is named.
    UrlNonHttpsScheme(&'static str, ParsedUrl),
    /// The validation of `mas_oidc_client` refused the metadata.
    Refused(ProviderMetadataVerificationError),
}

/// Why discovery of the provider failed.
#[derive(Debug)]
pub enum OauthDiscoveryError {
    /// The provider metadata did not validate.
    Validation(MetadataError),
}

/// What validation of metadata `m` against `expected_issuer` answers, in
/// the library's terms.
pub open spec fn validation_answer(
    m: MetadataView,
    expected_issuer: Seq<char>,
    r: Result<VerifiedProviderMetadata, OauthDiscoveryError>,
) -> bool {
    match validation_result(m, expected_issuer) {
        Ok(v) => r == Ok::<VerifiedProviderMetadata, OauthDiscoveryError>(v),
        Err(e) => r matches Err(OauthDiscoveryError::Validation(MetadataError::Refused(e2)))
            && e2 == e,
    }
}

/// Validates a record against the expected issuer, with the error in the
/// library's terms.
pub fn validate(m: MetadataRecord, expected_issuer: &str) -> (r: Result<
    VerifiedProviderMetadata,
    OauthDiscoveryError,
>)
    ensures
        validation_answer(m@, expected_issuer@, r),
{
    match validate_metadata(m, expected_issuer) {
        Ok(v) => Ok(v),
        Err(e) => Err(OauthDiscoveryError::Validation(MetadataError::Refused(e))),
    }
}

} // verus!
