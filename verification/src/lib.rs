//! A verified model of a mock OpenID Connect backend: fixed provider
//! endpoints, configurable session tokens, discovery with metadata
//! validation, token refresh and token revocation.

pub mod url_value;
pub mod metadata;
pub mod tokens;
pub mod mock;
pub mod laws;
