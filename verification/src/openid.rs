//! Configuration carried by the services that authenticate their callers
//! against an OpenID provider, and the query shapes of the console's login
//! endpoints. The token flows themselves are network work and run outside
//! this crate.

use vstd::prelude::*;

verus! {

/// The client configuration of an OpenID-authenticating service.
#[derive(Debug)]
pub struct AuthenticatorConfig {
    pub client_id: String,
    pub client_secret: String,
    pub scopes: String,
}

/// What can go wrong when validating a caller's token: the service has no
/// authenticator at all, or validation failed.
#[derive(Debug)]
pub enum AuthenticatorError {
    Missing,
    Failed,
}

impl AuthenticatorError {
    /// The error in words, as shown to an operator.
    pub fn text(&self) -> (r: String)
        ensures
            (*self is Missing) ==> r@ == "Missing authenticator instance"@,
            (*self is Failed) ==> r@ == "Authentication failed"@,
    {
        match self {
            AuthenticatorError::Missing => String::from_str("Missing authenticator instance"),
            AuthenticatorError::Failed => String::from_str("Authentication failed"),
        }
    }
}

/// What an OpenID client needs from a configuration: its id and its secret.
pub trait ClientConfig {
    fn client_id(&self) -> String;

    fn client_secret(&self) -> String;
}

impl ClientConfig for AuthenticatorConfig {
    fn client_id(&self) -> String {
        self.client_id.clone()
    }

    fn client_secret(&self) -> String {
        self.client_secret.clone()
    }
}

/// The query of the console's token endpoint: the authorization code handed
/// back by the provider, and the nonce of the login, if any.
#[derive(Debug)]
pub struct LoginQuery {
    pub code: String,
    pub nonce: Option<String>,
}

/// The query of the console's refresh endpoint.
#[derive(Debug)]
pub struct RefreshQuery {
    pub refresh_token: String,
}

} // verus!
