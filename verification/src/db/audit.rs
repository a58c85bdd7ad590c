//! The decisions behind the audit trail: how outcomes are named in storage
//! and how a stored row decodes.

use chrono::NaiveDateTime;
use uuid::Uuid;
use vstd::prelude::*;

use crate::error::{database_error, result_is, ErrorView, LibError};
use crate::models::audit::{
    AuditView, PaymentAuditChannel, PaymentAuditDb, PaymentAuditListQuery, PaymentAuditResult,
};
use crate::models::policy::{spec_limit, spec_page};
use crate::text::str_eq;

verus! {

/// The stored name of an audit channel.
pub open spec fn spec_audit_channel_name(channel: PaymentAuditChannel) -> Seq<char> {
    match channel {
        PaymentAuditChannel::X402 => "x402"@,
        PaymentAuditChannel::ApiKey => "api_key"@,
    }
}

/// The stored name of an audit outcome.
pub open spec fn spec_audit_result_name(result: PaymentAuditResult) -> Seq<char> {
    match result {
        PaymentAuditResult::Pass => "pass"@,
        PaymentAuditResult::Fail => "fail"@,
        PaymentAuditResult::Challenge => "challenge"@,
    }
}

/// What decoding a stored audit channel name gives.
pub open spec fn spec_parse_audit_channel(value: Seq<char>) -> Result<PaymentAuditChannel, ErrorView> {
    if value == "x402"@ {
        Ok(PaymentAuditChannel::X402)
    } else if value == "api_key"@ {
        Ok(PaymentAuditChannel::ApiKey)
    } else {
        Err(
            database_error(
                "Failed to decode payment audit channel"@,
                "unknown payment audit channel: "@ + value,
            ),
        )
    }
}

/// What decoding a stored audit outcome name gives.
pub open spec fn spec_parse_audit_result(value: Seq<char>) -> Result<PaymentAuditResult, ErrorView> {
    if value == "pass"@ {
        Ok(PaymentAuditResult::Pass)
    } else if value == "fail"@ {
        Ok(PaymentAuditResult::Fail)
    } else if value == "challenge"@ {
        Ok(PaymentAuditResult::Challenge)
    } else {
        Err(
            database_error(
                "Failed to decode payment audit result"@,
                "unknown payment audit result: "@ + value,
            ),
        )
    }
}

/// Every audit channel decodes back from its stored name.
pub proof fn lemma_audit_channel_roundtrip(channel: PaymentAuditChannel)
    ensures
        spec_parse_audit_channel(spec_audit_channel_name(channel)) == Ok::<PaymentAuditChannel, ErrorView>(
            channel,
        ),
{
    reveal_strlit("x402");
    reveal_strlit("api_key");
    assert("x402"@[0] != "api_key"@[0]);
}

/// Every audit outcome decodes back from its stored name.
pub proof fn lemma_audit_result_roundtrip(result: PaymentAuditResult)
    ensures
        spec_parse_audit_result(spec_audit_result_name(result)) == Ok::<PaymentAuditResult, ErrorView>(
            result,
        ),
{
    reveal_strlit("pass");
    reveal_strlit("fail");
    reveal_strlit("challenge");
    assert("pass"@[0] != "fail"@[0]);
    assert("challenge"@.len() != "pass"@.len());
    assert("challenge"@.len() != "fail"@.len());
}

/// The stored name of an audit channel.
pub fn channel_to_str(channel: PaymentAuditChannel) -> (r: &'static str)
    ensures
        r@ == spec_audit_channel_name(channel),
{
    match channel {
        PaymentAuditChannel::X402 => "x402",
        PaymentAuditChannel::ApiKey => "api_key",
    }
}

/// The stored name of an audit outcome.
pub fn result_to_str(result: PaymentAuditResult) -> (r: &'static str)
    ensures
        r@ == spec_audit_result_name(result),
{
    match result {
        PaymentAuditResult::Pass => "pass",
        PaymentAuditResult::Fail => "fail",
        PaymentAuditResult::Challenge => "challenge",
    }
}

/// Decodes a stored audit channel name.
pub fn parse_channel(value: &str) -> (r: Result<PaymentAuditChannel, LibError>)
    ensures
        result_is(r, spec_parse_audit_channel(value@)),
{
    if str_eq(value, "x402") {
        Ok(PaymentAuditChannel::X402)
    } else if str_eq(value, "api_key") {
        Ok(PaymentAuditChannel::ApiKey)
    } else {
        let detail = String::from_str("unknown payment audit channel: ").concat(value);
        Err(LibError::database("Failed to decode payment audit channel", detail.as_str()))
    }
}

/// Decodes a stored audit outcome name.
pub fn parse_result(value: &str) -> (r: Result<PaymentAuditResult, LibError>)
    ensures
        result_is(r, spec_parse_audit_result(value@)),
{
    if str_eq(value, "pass") {
        Ok(PaymentAuditResult::Pass)
    } else if str_eq(value, "fail") {
        Ok(PaymentAuditResult::Fail)
    } else if str_eq(value, "challenge") {
        Ok(PaymentAuditResult::Challenge)
    } else {
        let detail = String::from_str("unknown payment audit result: ").concat(value);
        Err(LibError::database("Failed to decode payment audit result", detail.as_str()))
    }
}

/// A stored audit row as it comes from the database.
pub struct PaymentAuditRow {
    pub id: Uuid,
    pub request_id: String,
    pub route_policy_id: Option<Uuid>,
    pub method: String,
    pub path: String,
    pub channel: String,
    pub result: String,
    pub status_code: i32,
    pub payer: Option<String>,
    pub api_key_id: Option<Uuid>,
    pub api_key_name: Option<String>,
    /// Details as JSON text.
    pub details: String,
    pub created_at: NaiveDateTime,
}

/// What decoding a stored audit row gives: the row, or the error of its
/// channel, or else of its outcome.
pub open spec fn spec_audit_row_to_model(row: PaymentAuditRow) -> Result<AuditView, ErrorView> {
    if spec_parse_audit_channel(row.channel@) is Err {
        Err(spec_parse_audit_channel(row.channel@)->Err_0)
    } else if spec_parse_audit_result(row.result@) is Err {
        Err(spec_parse_audit_result(row.result@)->Err_0)
    } else {
        Ok(
            AuditView {
                id: row.id,
                request_id: row.request_id@,
                route_policy_id: row.route_policy_id,
                method: row.method@,
                path: row.path@,
                channel: spec_parse_audit_channel(row.channel@)->Ok_0,
                result: spec_parse_audit_result(row.result@)->Ok_0,
                status_code: row.status_code,
                payer: row.payer.deep_view(),
                api_key_id: row.api_key_id,
                api_key_name: row.api_key_name.deep_view(),
                details: row.details@,
                created_at: row.created_at,
            },
        )
    }
}

/// Decodes a stored audit row.
pub fn row_to_model(row: PaymentAuditRow) -> (r: Result<PaymentAuditDb, LibError>)
    ensures
        match (r, spec_audit_row_to_model(row)) {
            (Ok(a), Ok(b)) => a@ == b,
            (Err(a), Err(b)) => a@ == b,
            _ => false,
        },
{
    let channel = match parse_channel(row.channel.as_str()) {
        Ok(c) => c,
        Err(e) => return Err(e),
    };
    let result = match parse_result(row.result.as_str()) {
        Ok(c) => c,
        Err(e) => return Err(e),
    };
    Ok(PaymentAuditDb {
        id: row.id,
        request_id: row.request_id,
        route_policy_id: row.route_policy_id,
        method: row.method,
        path: row.path,
        channel,
        result,
        status_code: row.status_code,
        payer: row.payer,
        api_key_id: row.api_key_id,
        api_key_name: row.api_key_name,
        details: row.details,
        created_at: row.created_at,
    })
}

/// How to list audit rows: the filters to apply (by stored name) and the
/// window to read, newest first.
pub struct AuditListPlan {
    pub channel: Option<&'static str>,
    pub result: Option<&'static str>,
    pub request_id: Option<String>,
    pub limit: i64,
    pub offset: i64,
}

/// The listing plan of an audit query.
pub fn audit_list_plan(query: &PaymentAuditListQuery) -> (r: AuditListPlan)
    ensures
        match (r.channel, query.channel) {
            (Some(n), Some(c)) => n@ == spec_audit_channel_name(c),
            (None, None) => true,
            _ => false,
        },
        match (r.result, query.result) {
            (Some(n), Some(c)) => n@ == spec_audit_result_name(c),
            (None, None) => true,
            _ => false,
        },
        match (r.request_id, query.request_id) {
            (Some(a), Some(b)) => a@ == b@,
            (None, None) => true,
            _ => false,
        },
        r.limit == spec_limit(query.limit, 100, 500),
        r.offset == (spec_page(query.page) - 1) * spec_limit(query.limit, 100, 500),
{
    let (page, limit) = query.pagination();
    let channel = match query.channel {
        Some(c) => Some(channel_to_str(c)),
        None => None,
    };
    let result = match query.result {
        Some(c) => Some(result_to_str(c)),
        None => None,
    };
    let request_id = match &query.request_id {
        Some(id) => Some(id.clone()),
        None => None,
    };
    assert((page - 1) * limit <= 0xffff_ffffu64 * 500) by (nonlinear_arith)
        requires
            1 <= page,
            limit <= 500,
    ;
    let offset: i64 = ((page - 1) as i64) * (limit as i64);
    AuditListPlan { channel, result, request_id, limit: limit as i64, offset }
}

} // verus!
