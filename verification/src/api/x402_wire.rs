//! The x402 wire format: decoding payment signatures and facilitator
//! answers, and encoding the requests sent to facilitators. The formats are
//! the `x402-types` crate's; the library names what its functions return.

use base64::engine::general_purpose::{URL_SAFE, URL_SAFE_NO_PAD};
use base64::Engine;
use vstd::prelude::*;
use x402_types::proto::v1;
use serde_json::Value;
use x402_types::chain::ChainId;
use x402_types::proto::v2;
use x402_types::proto::v2::{PaymentRequired, PaymentRequirements, ResourceInfo, X402Version2};

verus! {

/// What decoding URL-safe base64 text gives: the bytes, or the decoder's
/// message. Unpadded text is tried first, then padded text.
pub uninterp spec fn spec_base64_url_decode(text: Seq<char>) -> Result<Seq<u8>, Seq<char>>;

/// Decodes URL-safe base64 text, unpadded or padded.
///
/// Calls `base64::Engine::decode` on `URL_SAFE_NO_PAD`, and on failure on
/// `URL_SAFE`; claims that the outcome (bytes, or the second failure's
/// message) depends on the text alone.
#[verifier::external_body]
pub(crate) fn base64_url_decode(text: &str) -> (r: Result<Vec<u8>, String>)
    ensures
        match (r, spec_base64_url_decode(text@)) {
            (Ok(a), Ok(b)) => a@ == b,
            (Err(a), Err(b)) => a@ == b,
            _ => false,
        },
{
    match URL_SAFE_NO_PAD.decode(text) {
        Ok(bytes) => Ok(bytes),
        Err(_) => match URL_SAFE.decode(text) {
            Ok(bytes) => Ok(bytes),
            Err(err) => Err(err.to_string()),
        },
    }
}

/// A payment option as a payment payload states it; the network is a CAIP-2
/// chain id split at its first colon.
pub struct RequirementWireView {
    pub scheme: Seq<char>,
    pub network_namespace: Seq<char>,
    pub network_reference: Seq<char>,
    pub amount: Seq<char>,
    pub pay_to: Seq<char>,
    pub max_timeout_seconds: u64,
    pub asset: Seq<char>,
    pub extra: Option<Seq<char>>,
}

/// A payment option as a payment payload states it.
#[derive(Debug)]
pub struct RequirementWire {
    pub scheme: String,
    pub network_namespace: String,
    pub network_reference: String,
    pub amount: String,
    pub pay_to: String,
    pub max_timeout_seconds: u64,
    pub asset: String,
    /// Scheme-specific data, as JSON text.
    pub extra: Option<String>,
}

impl View for RequirementWire {
    type V = RequirementWireView;

    open spec fn view(&self) -> RequirementWireView {
        RequirementWireView {
            scheme: self.scheme@,
            network_namespace: self.network_namespace@,
            network_reference: self.network_reference@,
            amount: self.amount@,
            pay_to: self.pay_to@,
            max_timeout_seconds: self.max_timeout_seconds,
            asset: self.asset@,
            extra: self.extra.deep_view(),
        }
    }
}

/// What a payment payload states, as contracts see it.
pub struct PaymentPayloadView {
    pub accepted: RequirementWireView,
    pub resource_url: Option<Seq<char>>,
}

/// What the library reads of a payment payload: the option the payer
/// accepted and the resource the payment is for.
#[derive(Debug)]
pub struct PaymentPayloadInfo {
    pub accepted: RequirementWire,
    pub resource_url: Option<String>,
}

impl View for PaymentPayloadInfo {
    type V = PaymentPayloadView;

    open spec fn view(&self) -> PaymentPayloadView {
        PaymentPayloadView { accepted: self.accepted@, resource_url: self.resource_url.deep_view() }
    }
}

/// What parsing the JSON of a payment payload (protocol version 2) gives:
/// what it states, or the parser's message.
pub uninterp spec fn spec_payment_payload(bytes: Seq<u8>) -> Result<PaymentPayloadView, Seq<char>>;

/// Parses the JSON of a payment payload (protocol version 2).
///
/// Calls `serde_json::from_slice` into `x402_types::proto::v2::PaymentPayload`
/// and keeps the accepted option (its chain id as namespace and reference,
/// its extra data as JSON text) and the resource URL; claims that the
/// outcome depends on the bytes alone.
#[verifier::external_body]
pub(crate) fn parse_payment_payload(bytes: &[u8]) -> (r: Result<PaymentPayloadInfo, String>)
    ensures
        match (r, spec_payment_payload(bytes@)) {
            (Ok(a), Ok(b)) => a@ == b,
            (Err(a), Err(b)) => a@ == b,
            _ => false,
        },
{
    let parsed = serde_json::from_slice::<v2::PaymentPayload<v2::PaymentRequirements, serde_json::Value>>(bytes);
    let p = parsed.map_err(|err| err.to_string())?;
    let a = p.accepted;
    let accepted = RequirementWire {
        scheme: a.scheme,
        network_namespace: a.network.namespace,
        network_reference: a.network.reference,
        amount: a.amount,
        pay_to: a.pay_to,
        max_timeout_seconds: a.max_timeout_seconds,
        asset: a.asset,
        extra: a.extra.map(|v| v.to_string()),
    };
    Ok(PaymentPayloadInfo { accepted, resource_url: p.resource.map(|r| r.url) })
}

/// What the facilitator verify (and settle) request for a payment payload
/// is: the JSON text, or why it could not be built.
pub uninterp spec fn spec_verify_request_body(bytes: Seq<u8>) -> Result<Seq<char>, Seq<char>>;

/// Builds the verify (and settle) request for the payment payload in `bytes`.
///
/// Parses the payload as `parse_payment_payload` does, pairs it with the
/// option it accepted in an `x402_types::proto::v2::VerifyRequest`, and
/// serializes that through `x402_types::proto::VerifyRequest::try_from`;
/// claims that the outcome depends on the bytes alone.
#[verifier::external_body]
pub(crate) fn verify_request_body(bytes: &[u8]) -> (r: Result<String, String>)
    ensures
        match (r, spec_verify_request_body(bytes@)) {
            (Ok(a), Ok(b)) => a@ == b,
            (Err(a), Err(b)) => a@ == b,
            _ => false,
        },
{
    let parsed = serde_json::from_slice::<v2::PaymentPayload<v2::PaymentRequirements, serde_json::Value>>(bytes);
    let payload = parsed.map_err(|err| err.to_string())?;
    let request = v2::VerifyRequest {
        x402_version: v2::X402Version2,
        payment_requirements: payload.accepted.clone(),
        payment_payload: payload,
    };
    let built = x402_types::proto::VerifyRequest::try_from(&request).map_err(|err| err.to_string())?;
    Ok(built.as_str().to_string())
}

/// The first position of `c` in `s`, when `c` occurs.
pub open spec fn first_index_of(s: Seq<char>, c: char) -> int {
    choose|k: int| 0 <= k < s.len() && s[k] == c && forall|j: int| 0 <= j < k ==> s[j] != c
}

/// What parsing a CAIP-2 chain id gives: the text before the first colon
/// and the text after it, or nothing when there is no colon.
pub open spec fn spec_parse_chain_id(text: Seq<char>) -> Option<(Seq<char>, Seq<char>)> {
    if text.contains(':') {
        let k = first_index_of(text, ':');
        Some((text.take(k), text.skip(k + 1)))
    } else {
        None
    }
}

/// The message of the error that parsing a text that is no chain id gives.
pub open spec fn spec_chain_id_error(text: Seq<char>) -> Seq<char> {
    "Invalid chain id format "@ + text
}

/// Parses a CAIP-2 chain id into its namespace and reference, or gives the
/// parse error's message.
///
/// Calls `<x402_types::chain::ChainId as FromStr>::from_str`, which splits at
/// the first colon (`splitn(2, ':')`) and otherwise fails with
/// `ChainIdFormatError`, displayed as `Invalid chain id format {text}`.
#[verifier::external_body]
pub(crate) fn parse_chain_id(text: &str) -> (r: Result<(String, String), String>)
    ensures
        match (r, spec_parse_chain_id(text@)) {
            (Ok(a), Some(b)) => a.0@ == b.0 && a.1@ == b.1,
            (Err(e), None) => e@ == spec_chain_id_error(text@),
            _ => false,
        },
{
    match text.parse::<x402_types::chain::ChainId>() {
        Ok(chain) => Ok((chain.namespace, chain.reference)),
        Err(err) => Err(err.to_string()),
    }
}

/// A facilitator's answer to a verify request, as contracts see it.
pub enum VerifyAnswerView {
    Valid { payer: Seq<char> },
    Invalid { reason: Seq<char>, payer: Option<Seq<char>> },
}

/// A facilitator's answer to a verify request.
#[derive(Debug)]
pub enum VerifyAnswer {
    Valid { payer: String },
    Invalid { reason: String, payer: Option<String> },
}

impl View for VerifyAnswer {
    type V = VerifyAnswerView;

    open spec fn view(&self) -> VerifyAnswerView {
        match self {
            VerifyAnswer::Valid { payer } => VerifyAnswerView::Valid { payer: payer@ },
            VerifyAnswer::Invalid { reason, payer } => VerifyAnswerView::Invalid {
                reason: reason@,
                payer: payer.deep_view(),
            },
        }
    }
}

/// What decoding a facilitator's JSON answer to a verify request gives.
pub uninterp spec fn spec_verify_answer(body: Seq<char>) -> Result<VerifyAnswerView, Seq<char>>;

/// Decodes a facilitator's JSON answer to a verify request.
///
/// Reads the text as a `serde_json::Value` and converts that with
/// `TryFrom<x402_types::proto::VerifyResponse>` into
/// `x402_types::proto::v1::VerifyResponse` (the answer format of both
/// protocol versions), keeping its variant and fields; claims that the
/// outcome depends on the text alone.
#[verifier::external_body]
pub(crate) fn decode_verify_answer(body: &str) -> (r: Result<VerifyAnswer, String>)
    ensures
        match (r, spec_verify_answer(body@)) {
            (Ok(a), Ok(b)) => a@ == b,
            (Err(a), Err(b)) => a@ == b,
            _ => false,
        },
{
    let value = serde_json::from_str::<serde_json::Value>(body).map_err(|err| err.to_string())?;
    match v1::VerifyResponse::try_from(x402_types::proto::VerifyResponse(value)) {
        Ok(v1::VerifyResponse::Valid { payer }) => Ok(VerifyAnswer::Valid { payer }),
        Ok(v1::VerifyResponse::Invalid { reason, payer }) => Ok(VerifyAnswer::Invalid { reason, payer }),
        Err(err) => Err(err.to_string()),
    }
}

/// A facilitator's answer to a settle request, as contracts see it.
pub enum SettleAnswerView {
    Success { payer: Seq<char>, transaction: Seq<char>, network: Seq<char> },
    Error { reason: Seq<char>, network: Seq<char> },
}

/// A facilitator's answer to a settle request.
#[derive(Debug)]
pub enum SettleAnswer {
    Success { payer: String, transaction: String, network: String },
    Error { reason: String, network: String },
}

impl View for SettleAnswer {
    type V = SettleAnswerView;

    open spec fn view(&self) -> SettleAnswerView {
        match self {
            SettleAnswer::Success { payer, transaction, network } => SettleAnswerView::Success {
                payer: payer@,
                transaction: transaction@,
                network: network@,
            },
            SettleAnswer::Error { reason, network } => SettleAnswerView::Error {
                reason: reason@,
                network: network@,
            },
        }
    }
}

/// What decoding a facilitator's JSON answer to a settle request gives.
pub uninterp spec fn spec_settle_answer(body: Seq<char>) -> Result<SettleAnswerView, Seq<char>>;

/// Decodes a facilitator's JSON answer to a settle request.
///
/// Reads the text as a `serde_json::Value` and converts that with
/// `serde_json::from_value` into `x402_types::proto::v1::SettleResponse`
/// (the answer format of both protocol versions), keeping its variant and
/// fields; claims that the outcome depends on the text alone.
#[verifier::external_body]
pub(crate) fn decode_settle_answer(body: &str) -> (r: Result<SettleAnswer, String>)
    ensures
        match (r, spec_settle_answer(body@)) {
            (Ok(a), Ok(b)) => a@ == b,
            (Err(a), Err(b)) => a@ == b,
            _ => false,
        },
{
    let value = serde_json::from_str::<serde_json::Value>(body).map_err(|err| err.to_string())?;
    match serde_json::from_value::<v1::SettleResponse>(value) {
        Ok(v1::SettleResponse::Success { payer, transaction, network }) => Ok(
            SettleAnswer::Success { payer, transaction, network },
        ),
        Ok(v1::SettleResponse::Error { reason, network }) => Ok(SettleAnswer::Error { reason, network }),
        Err(err) => Err(err.to_string()),
    }
}

/// The views of a list of payload-form payment options.
pub open spec fn wires_view(v: Seq<RequirementWire>) -> Seq<RequirementWireView> {
    v.map_values(|w: RequirementWire| w@)
}

/// What serializing a payment challenge gives: the JSON of an x402
/// `PaymentRequired` message (protocol version 2) with the error message,
/// the resource (URL, description, MIME type) and the offered options, or
/// nothing when serialization fails.
pub uninterp spec fn spec_payment_required_json(
    accepts: Seq<RequirementWireView>,
    resource_url: Seq<char>,
    description: Seq<char>,
    mime_type: Seq<char>,
    message: Seq<char>,
) -> Option<Seq<u8>>;

/// Serializes a payment challenge.
///
/// Builds an `x402_types::proto::v2::PaymentRequired` (each option as a
/// `v2::PaymentRequirements`, its extra data read back from its JSON text)
/// and calls `serde_json::to_vec` on it, which cannot fail for this type
/// (texts, integers, JSON values with text keys, a chain id written as
/// text); claims that the bytes depend on the arguments alone.
#[verifier::external_body]
pub(crate) fn payment_required_json(
    accepts: Vec<RequirementWire>,
    resource_url: &str,
    description: &str,
    mime_type: &str,
    message: &str,
) -> (r: Option<Vec<u8>>)
    ensures
        r is Some,
        r.deep_view() == spec_payment_required_json(wires_view(accepts@), resource_url@, description@, mime_type@, message@),
{
    let accepts = accepts.into_iter().map(|w| PaymentRequirements {
        scheme: w.scheme,
        network: ChainId::new(w.network_namespace, w.network_reference),
        amount: w.amount,
        pay_to: w.pay_to,
        max_timeout_seconds: w.max_timeout_seconds,
        asset: w.asset,
        extra: w.extra.and_then(|t| serde_json::from_str::<Value>(&t).ok()),
    }).collect();
    let resource = ResourceInfo { url: resource_url.into(), description: Some(description.into()), mime_type: Some(mime_type.into()) };
    let required = PaymentRequired { x402_version: X402Version2, error: Some(message.into()), resource: Some(resource), accepts, extensions: Default::default() };
    serde_json::to_vec(&required).ok()
}

/// The URL-safe base64 text of some bytes, without padding.
pub uninterp spec fn spec_base64_url_encode(bytes: Seq<u8>) -> Seq<char>;

/// Encodes bytes as URL-safe base64 text without padding.
///
/// Calls `base64::Engine::encode` on `URL_SAFE_NO_PAD`; claims that the text
/// depends on the bytes alone.
#[verifier::external_body]
pub(crate) fn base64_url_encode(bytes: &[u8]) -> (r: String)
    ensures
        r@ == spec_base64_url_encode(bytes@),
{
    URL_SAFE_NO_PAD.encode(bytes)
}

/// Whether two JSON texts hold equal JSON values.
pub uninterp spec fn spec_json_values_equal(a: Seq<char>, b: Seq<char>) -> bool;

/// Whether two JSON texts hold equal JSON values.
///
/// Reads each text with `serde_json::from_str` into a `serde_json::Value` and
/// compares the two with `Value`'s `==` (so `0.0` and `-0.0` are equal, and
/// the order of object keys does not matter); a text that does not parse is
/// equal to nothing. Claims that the answer depends on the texts alone.
#[verifier::external_body]
pub(crate) fn json_values_equal(a: &str, b: &str) -> (r: bool)
    ensures
        r == spec_json_values_equal(a@, b@),
{
    match (serde_json::from_str::<Value>(a), serde_json::from_str::<Value>(b)) {
        (Ok(x), Ok(y)) => x == y,
        _ => false,
    }
}

/// The JSON string literal of a text.
pub uninterp spec fn spec_json_string(text: Seq<char>) -> Seq<char>;

/// The JSON string literal of a text.
///
/// Calls `serde_json::to_string` on the text, which cannot fail for a
/// string; claims that the literal depends on the text alone.
#[verifier::external_body]
pub(crate) fn json_string(text: &str) -> (r: String)
    ensures
        r@ == spec_json_string(text@),
{
    match serde_json::to_string(text) {
        Ok(s) => s,
        Err(_) => String::new(),
    }
}

} // verus!
