//! Plain data carried between the mission core and the upload service.
//!
//! The service client itself — authentication, transport, retries — is
//! an external collaborator; these types only hold what it exchanges, so
//! the rest of the pipeline can speak of uploads without touching any
//! transport machinery.

use vstd::prelude::*;

verus! {

/// An opaque identifier the remote service assigns to a stored object.
#[derive(Debug, Clone, PartialEq, Eq)]
pub struct ObjectId(pub String);

/// What a successful sign-in returns: the account's identity and the
/// token that authenticates the following requests.
#[derive(Debug, Clone)]
pub struct SessionData {
    pub object_id: String,
    pub username: String,
    pub email: String,
    pub name: String,
    pub email_verified: bool,
    pub session_token: String,
}

/// A mission file as the remote service stores it: a name and the
/// location it can be fetched from.
#[derive(Debug, Clone)]
pub struct MissionFile {
    pub name: String,
    pub url: String,
}

} // verus!
