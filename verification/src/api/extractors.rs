//! What a handler that demands a proof decides: given the context the
//! middleware left on the request (if any), the handler runs with it, or the
//! request is refused with 401 or 402.

use vstd::prelude::*;

use crate::api::auth_middleware::{JsonBody, Refusal};
use crate::models::auth::X402AuthContext;

verus! {

/// Whether a refusal is a plain JSON answer with this status, code and
/// message (no payment challenge header goes with it).
pub open spec fn refusal_is(r: Refusal, status: u16, code: Seq<char>, message: Seq<char>) -> bool {
    &&& r.status == status
    &&& r.body.code@ == code
    &&& r.body.message@ == message
    &&& r.payment_required is None
}

/// A 401 answer with the given message.
pub fn unauthorized(message: &str) -> (r: Refusal)
    ensures
        refusal_is(r, 401, "unauthorized"@, message@),
{
    Refusal { status: 401, body: JsonBody::new("unauthorized", message), payment_required: None }
}

/// A 402 answer with the given message.
pub fn payment_required(message: &str) -> (r: Refusal)
    ensures
        refusal_is(r, 402, "payment_required"@, message@),
{
    Refusal {
        status: 402,
        body: JsonBody::new("payment_required", message),
        payment_required: None,
    }
}

/// A handler argument that demands a proved payment.
#[derive(Debug, Clone)]
pub struct RequireX402(pub X402AuthContext);

/// A handler argument that demands a proved API key.
#[derive(Debug, Clone)]
pub struct RequireApiKey(pub X402AuthContext);

/// A handler argument that demands a proved payment or API key.
#[derive(Debug, Clone)]
pub struct RequireX402OrApiKey(pub X402AuthContext);

/// A handler argument that demands both a proved payment and API key.
#[derive(Debug, Clone)]
pub struct RequireX402AndApiKey(pub X402AuthContext);

impl RequireX402 {
    /// Accepts the request's context when it holds a payment proof; a 402
    /// otherwise.
    pub fn from_context(context: Option<X402AuthContext>) -> (r: Result<Self, Refusal>)
        ensures
            match context {
                Some(c) if c.x402 is Some => r matches Ok(v) && v.0 == c,
                _ => r matches Err(f) && refusal_is(f, 402, "payment_required"@, "x402 proof is required"@),
            },
    {
        match context {
            Some(c) => {
                if c.has_x402() {
                    Ok(RequireX402(c))
                } else {
                    Err(payment_required("x402 proof is required"))
                }
            },
            None => Err(payment_required("x402 proof is required")),
        }
    }
}

impl RequireApiKey {
    /// Accepts the request's context when it holds an API key proof; a 401
    /// otherwise.
    pub fn from_context(context: Option<X402AuthContext>) -> (r: Result<Self, Refusal>)
        ensures
            match context {
                Some(c) if c.api_key is Some => r matches Ok(v) && v.0 == c,
                _ => r matches Err(f) && refusal_is(f, 401, "unauthorized"@, "api key proof is required"@),
            },
    {
        match context {
            Some(c) => {
                if c.has_api_key() {
                    Ok(RequireApiKey(c))
                } else {
                    Err(unauthorized("api key proof is required"))
                }
            },
            None => Err(unauthorized("api key proof is required")),
        }
    }
}

impl RequireX402OrApiKey {
    /// Accepts the request's context when it holds a payment or an API key
    /// proof; a 401 otherwise.
    pub fn from_context(context: Option<X402AuthContext>) -> (r: Result<Self, Refusal>)
        ensures
            match context {
                Some(c) if c.x402 is Some || c.api_key is Some => r matches Ok(v) && v.0 == c,
                _ => r matches Err(f) && refusal_is(
                    f,
                    401,
                    "unauthorized"@,
                    "x402 or api key proof is required"@,
                ),
            },
    {
        match context {
            Some(c) => {
                if c.has_x402() || c.has_api_key() {
                    Ok(RequireX402OrApiKey(c))
                } else {
                    Err(unauthorized("x402 or api key proof is required"))
                }
            },
            None => Err(unauthorized("x402 or api key proof is required")),
        }
    }
}

impl RequireX402AndApiKey {
    /// Accepts the request's context when it holds both proofs. Without a
    /// context: a 402 asking for both; without a payment: a 402; with a
    /// payment but no API key: a 401.
    pub fn from_context(context: Option<X402AuthContext>) -> (r: Result<Self, Refusal>)
        ensures
            match context {
                None => r matches Err(f) && refusal_is(
                    f,
                    402,
                    "payment_required"@,
                    "x402 and api key proofs are required"@,
                ),
                Some(c) => if c.x402 is None {
                    r matches Err(f) && refusal_is(f, 402, "payment_required"@, "x402 proof is required"@)
                } else if c.api_key is None {
                    r matches Err(f) && refusal_is(f, 401, "unauthorized"@, "api key proof is required"@)
                } else {
                    r matches Ok(v) && v.0 == c
                },
            },
    {
        match context {
            Some(c) => {
                if !c.has_x402() {
                    return Err(payment_required("x402 proof is required"));
                }
                if !c.has_api_key() {
                    return Err(unauthorized("api key proof is required"));
                }
                Ok(RequireX402AndApiKey(c))
            },
            None => Err(payment_required("x402 and api key proofs are required")),
        }
    }
}

} // verus!
