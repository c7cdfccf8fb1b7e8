//! Credentials and the authenticated requests built from them.
use vstd::prelude::*;
use crate::error::NexusError;

verus! {

/// The identity and secret sent with every request (HTTP Basic authentication).
#[derive(Debug, Clone)]
pub struct Credentials {
    pub identity: String,
    pub secret: String,
}

/// An authenticated GET: the address and the credentials to send with it.
#[derive(Debug, Clone)]
pub struct Request {
    pub url: String,
    pub identity: String,
    pub secret: String,
}

/// Turns the two values read from the environment into credentials. An
/// absent value is never taken for an empty one: it fails the operation.
pub fn resolve_credentials(identity: Option<String>, secret: Option<String>) -> (r: Result<
    Credentials,
    NexusError,
>)
    ensures
        (identity is None || secret is None) <==> r is Err,
        r is Err ==> r->Err_0 is MissingCredentials,
        r is Ok ==> r->Ok_0.identity == identity->Some_0 && r->Ok_0.secret == secret->Some_0,
{
    match (identity, secret) {
        (Some(identity), Some(secret)) => Ok(Credentials { identity, secret }),
        _ => Err(NexusError::MissingCredentials),
    }
}

impl Request {
    /// A GET of `url` carrying `credentials`.
    pub fn get(url: String, credentials: &Credentials) -> (r: Request)
        ensures
            r.url == url,
            r.identity@ == credentials.identity@,
            r.secret@ == credentials.secret@,
    {
        Request {
            url,
            identity: credentials.identity.clone(),
            secret: credentials.secret.clone(),
        }
    }
}

} // verus!
