//! Credential and access-token records for the catalog service.

use vstd::prelude::*;

verus! {

/// Client secret and ID, as loaded from the startup credentials.
pub struct ClientInfo<'a> {
    /// Client secret.
    pub client_secret: &'a str,
    /// Client ID.
    pub client_id: &'a str,
    /// Client auth refresh key.
    pub refresh_token: &'a str,
    /// Client auth key.
    pub auth_token: Option<String>,
}

/// Access token for a client.
#[derive(Debug, Clone)]
pub struct AccessToken {
    /// Auth token.
    pub access_token: String,
    /// Token's type.
    pub token_type: TokenType,
    /// When it expires, in seconds.
    pub expires_in: u32,
}

/// Types of access tokens.
#[derive(Debug, Clone, Copy)]
pub enum TokenType {
    /// Bearer token.
    Bearer,
}

} // verus!
