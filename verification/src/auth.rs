//! The request and outcome types of the authentication service, as any remote
//! caller of the decision engine sees them.

use vstd::prelude::*;
use crate::model::{Application, Device};

verus! {

/// A credential presented by a device: a bare password, a username/password
/// pair, or an ordered chain of DER-encoded certificates, leaf first.
#[derive(Debug)]
pub enum Credential {
    UsernamePassword { username: String, password: String },
    Password(String),
    Certificate(Vec<Vec<u8>>),
}

/// One authentication request: which device of which application claims to
/// publish, with which credential, and optionally on behalf of which other
/// device.
#[derive(Debug)]
pub struct AuthenticationRequest {
    pub application: String,
    pub device: String,
    pub credential: Credential,
    pub publish_as: Option<String>,
}

/// The decision of the engine. A passing outcome carries the application and
/// the authenticated device record, the latter with its credentials stripped;
/// a failing outcome carries nothing, so that a caller cannot tell whether the
/// application, the device or the credential was the cause.
#[derive(Debug)]
pub enum Outcome {
    Pass { application: Application, device: Device },
    Fail,
}

/// The body of a response of the authentication service.
#[derive(Debug)]
pub struct AuthenticationResponse {
    pub outcome: Outcome,
}

impl AuthenticationResponse {
    /// The uniform failure response.
    pub fn failed() -> (r: Self)
        ensures
            r.outcome is Fail,
    {
        AuthenticationResponse { outcome: Outcome::Fail }
    }
}

/// An error description as a remote service reports it.
#[derive(Debug)]
pub struct ErrorInformation {
    pub error: String,
    pub message: String,
}

impl ErrorInformation {
    /// The error and its message in one line, as shown to an operator.
    pub fn text(&self) -> (r: String)
        ensures
            r@ == self.error@ + ": "@ + self.message@,
    {
        let mut r = self.error.clone();
        r.append(": ");
        r.append(self.message.as_str());
        r
    }
}

/// What can go wrong when calling the authentication service from a client:
/// a transport-level error, a local request error, or an error the service
/// itself reported.
#[derive(Debug)]
pub enum AuthenticationClientError {
    Client(String),
    Request(String),
    Service(ErrorInformation),
}

/// A client authenticating devices against the decision engine. Transport
/// implementations live outside this crate; any error a caller sees is to be
/// treated as an authentication failure.
pub trait AuthenticationClient {
    fn authenticate(&self, request: AuthenticationRequest) -> Result<
        AuthenticationResponse,
        AuthenticationClientError,
    >;
}

} // verus!
