//! The audit trail: one row per channel evaluated for a protected request.

use chrono::NaiveDateTime;
use uuid::Uuid;
use vstd::prelude::*;

use crate::models::policy::{page_limit, page_number, spec_limit, spec_page};

verus! {

/// The channel an audit row is about.
#[derive(Debug, Clone, Copy, PartialEq, Eq, Structural)]
pub enum PaymentAuditChannel {
    X402,
    ApiKey,
}

/// The outcome an audit row records.
#[derive(Debug, Clone, Copy, PartialEq, Eq, Structural)]
pub enum PaymentAuditResult {
    Pass,
    Fail,
    Challenge,
}

/// An audit row as contracts see it; the API and stored forms share it.
pub struct AuditView {
    pub id: Uuid,
    pub request_id: Seq<char>,
    pub route_policy_id: Option<Uuid>,
    pub method: Seq<char>,
    pub path: Seq<char>,
    pub channel: PaymentAuditChannel,
    pub result: PaymentAuditResult,
    pub status_code: i32,
    pub payer: Option<Seq<char>>,
    pub api_key_id: Option<Uuid>,
    pub api_key_name: Option<Seq<char>>,
    pub details: Seq<char>,
    pub created_at: NaiveDateTime,
}

/// An audit row as it is stored.
#[derive(Debug, Clone)]
pub struct PaymentAuditDb {
    pub id: Uuid,
    pub request_id: String,
    pub route_policy_id: Option<Uuid>,
    pub method: String,
    pub path: String,
    pub channel: PaymentAuditChannel,
    pub result: PaymentAuditResult,
    pub status_code: i32,
    pub payer: Option<String>,
    pub api_key_id: Option<Uuid>,
    pub api_key_name: Option<String>,
    /// Details as JSON text.
    pub details: String,
    pub created_at: NaiveDateTime,
}

/// An audit row as the API shows it.
#[derive(Debug, Clone)]
pub struct PaymentAuditApi {
    pub id: Uuid,
    pub request_id: String,
    pub route_policy_id: Option<Uuid>,
    pub method: String,
    pub path: String,
    pub channel: PaymentAuditChannel,
    pub result: PaymentAuditResult,
    pub status_code: i32,
    pub payer: Option<String>,
    pub api_key_id: Option<Uuid>,
    pub api_key_name: Option<String>,
    /// Details as JSON text.
    pub details: String,
    pub created_at: NaiveDateTime,
}

impl View for PaymentAuditDb {
    type V = AuditView;

    open spec fn view(&self) -> AuditView {
        AuditView {
            id: self.id,
            request_id: self.request_id@,
            route_policy_id: self.route_policy_id,
            method: self.method@,
            path: self.path@,
            channel: self.channel,
            result: self.result,
            status_code: self.status_code,
            payer: self.payer.deep_view(),
            api_key_id: self.api_key_id,
            api_key_name: self.api_key_name.deep_view(),
            details: self.details@,
            created_at: self.created_at,
        }
    }
}

impl View for PaymentAuditApi {
    type V = AuditView;

    open spec fn view(&self) -> AuditView {
        AuditView {
            id: self.id,
            request_id: self.request_id@,
            route_policy_id: self.route_policy_id,
            method: self.method@,
            path: self.path@,
            channel: self.channel,
            result: self.result,
            status_code: self.status_code,
            payer: self.payer.deep_view(),
            api_key_id: self.api_key_id,
            api_key_name: self.api_key_name.deep_view(),
            details: self.details@,
            created_at: self.created_at,
        }
    }
}

impl PaymentAuditApi {
    /// The API form of a stored audit row; every field is kept.
    pub fn from_db(value: PaymentAuditDb) -> (r: Self)
        ensures
            r@ == value@,
    {
        PaymentAuditApi {
            id: value.id,
            request_id: value.request_id,
            route_policy_id: value.route_policy_id,
            method: value.method,
            path: value.path,
            channel: value.channel,
            result: value.result,
            status_code: value.status_code,
            payer: value.payer,
            api_key_id: value.api_key_id,
            api_key_name: value.api_key_name,
            details: value.details,
            created_at: value.created_at,
        }
    }
}

/// An audit row to write.
#[derive(Debug, Clone)]
pub struct CreatePaymentAudit {
    pub request_id: String,
    pub route_policy_id: Option<Uuid>,
    pub method: String,
    pub path: String,
    pub channel: PaymentAuditChannel,
    pub result: PaymentAuditResult,
    pub status_code: i32,
    pub payer: Option<String>,
    pub api_key_id: Option<Uuid>,
    pub api_key_name: Option<String>,
    /// Details as JSON text.
    pub details: String,
}

/// Filters and paging for listing audit rows.
#[derive(Debug, Clone)]
pub struct PaymentAuditListQuery {
    pub page: Option<u32>,
    pub limit: Option<u32>,
    pub channel: Option<PaymentAuditChannel>,
    pub result: Option<PaymentAuditResult>,
    pub request_id: Option<String>,
}

impl PaymentAuditListQuery {
    /// The page (at least 1, default 1) and page size (default 100, held to 1..=500).
    pub fn pagination(&self) -> (r: (u32, u32))
        ensures
            r == (spec_page(self.page), spec_limit(self.limit, 100, 500)),
    {
        (page_number(self.page), page_limit(self.limit, 100, 500))
    }
}

} // verus!
