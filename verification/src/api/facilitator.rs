//! What the library decides about a facilitator's HTTP answers: which
//! statuses carry an answer, how the answers are decoded, and the errors of
//! the facilitator profile administration API.

use vstd::prelude::*;

use crate::api::x402_wire::{
    decode_settle_answer, decode_verify_answer, spec_settle_answer, spec_verify_answer,
    SettleAnswer, SettleAnswerView, VerifyAnswer, VerifyAnswerView,
};
use crate::error::{kind_error, ErrorKind, ErrorView, LibError};

verus! {

/// Whether a status is a success (2xx).
pub open spec fn spec_status_is_success(status: u16) -> bool {
    200 <= status <= 299
}

/// Whether a facilitator's verify or settle endpoint answered with a body
/// worth decoding: a success, or 400 and 412, with which facilitators
/// explain a refusal.
pub open spec fn spec_answer_status_accepted(status: u16) -> bool {
    spec_status_is_success(status) || status == 400 || status == 412
}

/// Whether a status is a success (2xx).
pub fn status_is_success(status: u16) -> (r: bool)
    ensures
        r == spec_status_is_success(status),
{
    200 <= status && status <= 299
}

/// Whether a facilitator's verify or settle endpoint answered with a body
/// worth decoding.
pub fn answer_status_accepted(status: u16) -> (r: bool)
    ensures
        r == spec_answer_status_accepted(status),
{
    status_is_success(status) || status == 400 || status == 412
}

/// An error of a facilitator call.
pub open spec fn upstream_error(public: Seq<char>, source: Seq<char>) -> ErrorView {
    kind_error(ErrorKind::Upstream, public, source)
}

/// The error when a facilitator's verify or settle endpoint answers with a
/// status that carries no answer; `status_text` is the status as text (such
/// as `404 Not Found`) and `body` the body as read.
pub fn answer_status_error(status_text: &str, body: &str) -> (e: LibError)
    ensures
        e@ == upstream_error(
            "ACP endpoint returned an error"@,
            "post_json status="@ + status_text@ + " body="@ + body@,
        ),
{
    let detail = String::from_str("post_json status=").concat(status_text).concat(" body=").concat(body);
    LibError::upstream("ACP endpoint returned an error", detail.as_str())
}

/// The error when the body of a facilitator's answer cannot be read as JSON;
/// `err` is the reading error's text.
pub fn response_body_error(err: &str) -> (e: LibError)
    ensures
        e@ == upstream_error("Failed to decode ACP response body"@, "post_json decode failed: "@ + err@),
{
    let detail = String::from_str("post_json decode failed: ").concat(err);
    LibError::upstream("Failed to decode ACP response body", detail.as_str())
}

/// What decoding a facilitator's verify answer gives: the answer, or an
/// error when the JSON does not have its shape.
pub open spec fn spec_verify_answer_from_body(body: Seq<char>) -> Result<VerifyAnswerView, ErrorView> {
    match spec_verify_answer(body) {
        Ok(a) => Ok(a),
        Err(e) => Err(upstream_error("ACP verify response was invalid"@, "verify_payment decode failed: "@ + e)),
    }
}

/// Decodes a facilitator's answer to a verify request; `body` is the JSON
/// text of the answer.
pub fn verify_answer_from_body(body: &str) -> (r: Result<VerifyAnswer, LibError>)
    ensures
        match (r, spec_verify_answer_from_body(body@)) {
            (Ok(a), Ok(b)) => a@ == b,
            (Err(a), Err(b)) => a@ == b,
            _ => false,
        },
{
    match decode_verify_answer(body) {
        Ok(a) => Ok(a),
        Err(e) => {
            let detail = String::from_str("verify_payment decode failed: ").concat(e.as_str());
            Err(LibError::upstream("ACP verify response was invalid", detail.as_str()))
        },
    }
}

/// What decoding a facilitator's settle answer gives: the answer, or an
/// error when the JSON does not have its shape.
pub open spec fn spec_settle_answer_from_body(body: Seq<char>) -> Result<SettleAnswerView, ErrorView> {
    match spec_settle_answer(body) {
        Ok(a) => Ok(a),
        Err(e) => Err(upstream_error("ACP settle response was invalid"@, "settle_payment decode failed: "@ + e)),
    }
}

/// Decodes a facilitator's answer to a settle request; `body` is the JSON
/// text of the answer.
pub fn settle_answer_from_body(body: &str) -> (r: Result<SettleAnswer, LibError>)
    ensures
        match (r, spec_settle_answer_from_body(body@)) {
            (Ok(a), Ok(b)) => a@ == b,
            (Err(a), Err(b)) => a@ == b,
            _ => false,
        },
{
    match decode_settle_answer(body) {
        Ok(a) => Ok(a),
        Err(e) => {
            let detail = String::from_str("settle_payment decode failed: ").concat(e.as_str());
            Err(LibError::upstream("ACP settle response was invalid", detail.as_str()))
        },
    }
}

/// The error when a facilitator's supported-kinds endpoint answers with a
/// status other than a success.
pub fn supported_status_error(status_text: &str, body: &str) -> (e: LibError)
    ensures
        e@ == upstream_error(
            "ACP supported endpoint returned an error"@,
            "fetch_supported status="@ + status_text@ + " body="@ + body@,
        ),
{
    let detail = String::from_str("fetch_supported status=").concat(status_text).concat(" body=").concat(
        body,
    );
    LibError::upstream("ACP supported endpoint returned an error", detail.as_str())
}

/// The error when a facilitator profile does not exist; `id` is its text.
pub fn profile_not_found(id: &str) -> (e: LibError)
    ensures
        e@ == kind_error(
            ErrorKind::NotFound,
            "Facilitator profile not found"@,
            "facilitator profile "@ + id@ + " not found"@,
        ),
{
    let detail = String::from_str("facilitator profile ").concat(id).concat(" not found");
    LibError::not_found("Facilitator profile not found", detail.as_str())
}

/// The error when a route policy does not exist; `id` is its text.
pub fn policy_not_found(id: &str) -> (e: LibError)
    ensures
        e@ == kind_error(
            ErrorKind::NotFound,
            "Route policy not found"@,
            "route policy "@ + id@ + " not found"@,
        ),
{
    let detail = String::from_str("route policy ").concat(id).concat(" not found");
    LibError::not_found("Route policy not found", detail.as_str())
}

} // verus!
