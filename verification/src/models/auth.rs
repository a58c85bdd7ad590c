//! What the authorization middleware learned about a request.

use uuid::Uuid;
use vstd::prelude::*;

use crate::models::policy::AuthMode;

verus! {

/// The outcome of evaluating one channel.
#[derive(Debug, Clone, Copy, PartialEq, Eq, Structural)]
pub enum AuthChannelResult {
    Pass,
    Fail,
    Challenge,
}

/// What a settled payment proves.
#[derive(Debug, Clone)]
pub struct X402Proof {
    pub payer: String,
    pub network: String,
    pub scheme: String,
    pub resource: Option<String>,
}

/// What an accepted API key proves.
#[derive(Debug, Clone)]
pub struct ApiKeyProof {
    pub api_key_id: Uuid,
    pub api_key_name: String,
    pub actor_user_id: Uuid,
    pub mount_name: String,
}

/// The proofs a request carried through the middleware.
#[derive(Debug, Clone)]
pub struct X402AuthContext {
    pub request_id: String,
    pub route_policy_id: Option<Uuid>,
    pub mode: Option<AuthMode>,
    /// The channels that passed, by name, in the order they were evaluated.
    pub succeeded_channels: Vec<String>,
    pub x402: Option<X402Proof>,
    pub api_key: Option<ApiKeyProof>,
}

impl X402AuthContext {
    /// A context for a request that has proved nothing yet.
    pub fn new(request_id: String) -> (r: Self)
        ensures
            r.request_id == request_id,
            r.route_policy_id is None,
            r.mode is None,
            r.succeeded_channels@.len() == 0,
            r.x402 is None,
            r.api_key is None,
    {
        X402AuthContext {
            request_id,
            route_policy_id: None,
            mode: None,
            succeeded_channels: Vec::new(),
            x402: None,
            api_key: None,
        }
    }

    /// Whether a payment was proved.
    pub fn has_x402(&self) -> (r: bool)
        ensures
            r == self.x402 is Some,
    {
        self.x402.is_some()
    }

    /// Whether an API key was proved.
    pub fn has_api_key(&self) -> (r: bool)
        ensures
            r == self.api_key is Some,
    {
        self.api_key.is_some()
    }
}

/// The role that may read and change the administration APIs.
pub const DEFAULT_ADMIN_ROLE: &'static str = "x402_admin";

/// The role that may read the administration APIs.
pub const DEFAULT_READ_ROLE: &'static str = "x402_read";

/// The scope under which the roles are granted.
pub const X402_ROLE_SCOPE: &'static str = "x402";

/// The scope id under which the roles are granted.
pub const X402_ROLE_SCOPE_ID: &'static str = "global";

} // verus!
