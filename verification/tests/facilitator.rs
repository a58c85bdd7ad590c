use std::collections::HashMap;

use chrono::NaiveDateTime;
use uuid::Uuid;

use subseq_x402::api::facilitator::{
    answer_status_accepted, answer_status_error, policy_not_found, profile_not_found,
    response_body_error, settle_answer_from_body, status_is_success, supported_status_error,
    verify_answer_from_body,
};
use subseq_x402::api::x402_wire::{SettleAnswer, VerifyAnswer};
use subseq_x402::db::facilitator::{merge_profile_patch, row_to_model, FacilitatorProfileRow};
use subseq_x402::error::ErrorKind;
use subseq_x402::models::facilitator::{
    default_supported_cache_ttl, default_timeout_ms, default_true, CreateFacilitatorProfileDb,
    CreateFacilitatorProfileRequest, FacilitatorProfileApi, FacilitatorProfileDb,
    UpdateFacilitatorProfileDb, UpdateFacilitatorProfileRequest,
};

fn timestamp() -> NaiveDateTime {
    chrono::DateTime::from_timestamp(1_700_000_000, 0).expect("timestamp").naive_utc()
}

fn request() -> CreateFacilitatorProfileRequest {
    CreateFacilitatorProfileRequest {
        name: "default".to_string(),
        verify_url: "https://example.com/verify".to_string(),
        settle_url: "https://example.com/settle".to_string(),
        supported_url: "https://example.com/supported".to_string(),
        default_headers: Default::default(),
        timeout_ms: 5000,
        supported_cache_ttl_secs: 600,
        enabled: true,
    }
}

fn stored() -> FacilitatorProfileDb {
    FacilitatorProfileDb {
        id: Uuid::from_u128(3),
        name: "default".to_string(),
        verify_url: "https://example.com/verify".to_string(),
        settle_url: "https://example.com/settle".to_string(),
        supported_url: "https://example.com/supported".to_string(),
        default_headers: HashMap::new(),
        timeout_ms: 1000,
        supported_cache_ttl_secs: 60,
        enabled: true,
        created_at: timestamp(),
        updated_at: timestamp(),
    }
}

#[test]
fn create_profile_validates_urls() {
    let db = CreateFacilitatorProfileDb::from_request(request()).expect("profile converts");
    assert_eq!(db.name, "default");
}

#[test]
fn create_profile_trims_and_reports_the_first_error() {
    let mut r = request();
    r.name = "  main ".to_string();
    r.verify_url = " http://v.test/verify ".to_string();
    let db = CreateFacilitatorProfileDb::from_request(r.clone()).expect("profile converts");
    assert_eq!(db.name, "main");
    assert_eq!(db.verify_url, "http://v.test/verify");
    assert_eq!(db.timeout_ms, 5000);

    r.name = "   ".to_string();
    r.verify_url = "ftp://x".to_string();
    let err = CreateFacilitatorProfileDb::from_request(r.clone()).unwrap_err();
    assert_eq!(err.kind, ErrorKind::InvalidInput);
    assert_eq!(err.public, "Facilitator profile name is required");
    assert_eq!(err.source, "profile name cannot be empty");

    r.name = "main".to_string();
    let err = CreateFacilitatorProfileDb::from_request(r.clone()).unwrap_err();
    assert_eq!(err.public, "Facilitator endpoint URL must be absolute");
    assert_eq!(err.source, "verifyUrl must start with http:// or https://");

    r.verify_url = "https://v".to_string();
    r.settle_url = " ".to_string();
    let err = CreateFacilitatorProfileDb::from_request(r.clone()).unwrap_err();
    assert_eq!(err.public, "Facilitator endpoint URL is required");
    assert_eq!(err.source, "settleUrl cannot be empty");

    r.settle_url = "https://s".to_string();
    r.timeout_ms = 0;
    let err = CreateFacilitatorProfileDb::from_request(r.clone()).unwrap_err();
    assert_eq!(err.public, "timeoutMs must be greater than zero");

    r.timeout_ms = 10;
    r.supported_cache_ttl_secs = -1;
    let err = CreateFacilitatorProfileDb::from_request(r).unwrap_err();
    assert_eq!(err.public, "supportedCacheTtlSecs cannot be negative");
}

#[test]
fn update_profile_checks_given_fields_only() {
    let patch = UpdateFacilitatorProfileRequest {
        name: Some(" renamed ".to_string()),
        verify_url: None,
        settle_url: None,
        supported_url: Some("https://example.com/kinds".to_string()),
        default_headers: None,
        timeout_ms: Some(250),
        supported_cache_ttl_secs: None,
        enabled: Some(false),
    };
    let db = UpdateFacilitatorProfileDb::from_request(patch).expect("patch converts");
    assert_eq!(db.name.as_deref(), Some("renamed"));
    assert_eq!(db.verify_url, None);
    assert_eq!(db.supported_url.as_deref(), Some("https://example.com/kinds"));
    assert_eq!(db.timeout_ms, Some(250));
    assert_eq!(db.enabled, Some(false));

    let bad = UpdateFacilitatorProfileRequest {
        name: None,
        verify_url: None,
        settle_url: None,
        supported_url: None,
        default_headers: None,
        timeout_ms: Some(-5),
        supported_cache_ttl_secs: None,
        enabled: None,
    };
    let err = UpdateFacilitatorProfileDb::from_request(bad).unwrap_err();
    assert_eq!(err.public, "timeoutMs must be greater than zero");
}

#[test]
fn profile_defaults() {
    assert_eq!(default_timeout_ms(), 5000);
    assert_eq!(default_supported_cache_ttl(), 600);
    assert!(default_true());
}

#[test]
fn profile_patch_merges_given_fields() {
    let existing = stored();
    let mut patch = UpdateFacilitatorProfileDb::default();
    patch.timeout_ms = Some(2000);
    patch.enabled = Some(false);
    let merged = merge_profile_patch(existing.clone(), patch);
    assert_eq!(merged.name, existing.name);
    assert_eq!(merged.verify_url, existing.verify_url);
    assert_eq!(merged.timeout_ms, 2000);
    assert_eq!(merged.supported_cache_ttl_secs, 60);
    assert!(!merged.enabled);

    let unchanged = merge_profile_patch(existing.clone(), UpdateFacilitatorProfileDb::default());
    assert_eq!(unchanged.name, existing.name);
    assert_eq!(unchanged.timeout_ms, existing.timeout_ms);
    assert_eq!(unchanged.enabled, existing.enabled);

    let api = FacilitatorProfileApi::from_db(existing.clone());
    assert_eq!(api.id, existing.id);
    assert_eq!(api.settle_url, existing.settle_url);
}

#[test]
fn profile_row_decodes() {
    let mut headers = HashMap::new();
    headers.insert("x-acp-key".to_string(), "secret".to_string());
    let row = FacilitatorProfileRow {
        id: Uuid::from_u128(3),
        name: "default".to_string(),
        verify_url: "https://v".to_string(),
        settle_url: "https://s".to_string(),
        supported_url: "https://k".to_string(),
        default_headers: Ok(headers),
        timeout_ms: 1000,
        supported_cache_ttl_secs: 60,
        enabled: true,
        created_at: timestamp(),
        updated_at: timestamp(),
    };
    let model = row_to_model(row).expect("decode");
    assert_eq!(model.default_headers.get("x-acp-key").map(String::as_str), Some("secret"));

    let row = FacilitatorProfileRow {
        id: Uuid::from_u128(3),
        name: "default".to_string(),
        verify_url: "https://v".to_string(),
        settle_url: "https://s".to_string(),
        supported_url: "https://k".to_string(),
        default_headers: Err("invalid type: string".to_string()),
        timeout_ms: 1000,
        supported_cache_ttl_secs: 60,
        enabled: true,
        created_at: timestamp(),
        updated_at: timestamp(),
    };
    let err = row_to_model(row).unwrap_err();
    assert_eq!(err.kind, ErrorKind::Database);
    assert_eq!(err.public, "Failed to decode facilitator profile headers");
    assert_eq!(err.source, "row_to_model default_headers decode failed: invalid type: string");
}

#[test]
fn facilitator_statuses() {
    assert!(answer_status_accepted(200));
    assert!(answer_status_accepted(204));
    assert!(answer_status_accepted(400));
    assert!(answer_status_accepted(412));
    assert!(!answer_status_accepted(401));
    assert!(!answer_status_accepted(500));
    assert!(status_is_success(299));
    assert!(!status_is_success(300));
    assert!(!status_is_success(400));

    let err = answer_status_error("503 Service Unavailable", "down");
    assert_eq!(err.kind, ErrorKind::Upstream);
    assert_eq!(err.code, "upstream_error");
    assert_eq!(err.public, "ACP endpoint returned an error");
    assert_eq!(err.source, "post_json status=503 Service Unavailable body=down");

    let err = supported_status_error("400 Bad Request", "bad");
    assert_eq!(err.public, "ACP supported endpoint returned an error");
    assert_eq!(err.source, "fetch_supported status=400 Bad Request body=bad");
}

#[test]
fn verify_answers_decode() {
    match verify_answer_from_body("{\"isValid\":true,\"payer\":\"0xpayer\"}").expect("decode") {
        VerifyAnswer::Valid { payer } => assert_eq!(payer, "0xpayer"),
        other => panic!("unexpected answer {other:?}"),
    }
    match verify_answer_from_body("{\"isValid\":false,\"invalidReason\":\"insufficient_funds\"}").expect("decode") {
        VerifyAnswer::Invalid { reason, payer } => {
            assert_eq!(reason, "insufficient_funds");
            assert_eq!(payer, None);
        }
        other => panic!("unexpected answer {other:?}"),
    }
    let err = response_body_error("error decoding response body");
    assert_eq!(err.kind, ErrorKind::Upstream);
    assert_eq!(err.public, "Failed to decode ACP response body");
    assert_eq!(err.source, "post_json decode failed: error decoding response body");

    let err = verify_answer_from_body("{\"unexpected\":1}").unwrap_err();
    assert_eq!(err.public, "ACP verify response was invalid");
    assert!(err.source.starts_with("verify_payment decode failed: "));
}

#[test]
fn settle_answers_decode() {
    let body = "{\"success\":true,\"transaction\":\"0xabc\",\"network\":\"eip155:1\",\"payer\":\"0xpayer\"}";
    match settle_answer_from_body(body).expect("decode") {
        SettleAnswer::Success { payer, transaction, network } => {
            assert_eq!(payer, "0xpayer");
            assert_eq!(transaction, "0xabc");
            assert_eq!(network, "eip155:1");
        }
        other => panic!("unexpected answer {other:?}"),
    }
    let body = "{\"success\":false,\"error_reason\":\"expired\",\"network\":\"eip155:1\"}";
    match settle_answer_from_body(body).expect("decode") {
        SettleAnswer::Error { reason, network } => {
            assert_eq!(reason, "expired");
            assert_eq!(network, "eip155:1");
        }
        other => panic!("unexpected answer {other:?}"),
    }
    let err = settle_answer_from_body("[1,2]").unwrap_err();
    assert_eq!(err.public, "ACP settle response was invalid");
    assert!(err.source.starts_with("settle_payment decode failed: "));
}

#[test]
fn not_found_errors() {
    let err = profile_not_found("0000-1");
    assert_eq!(err.kind, ErrorKind::NotFound);
    assert_eq!(err.code, "not_found");
    assert_eq!(err.public, "Facilitator profile not found");
    assert_eq!(err.source, "facilitator profile 0000-1 not found");
    let err = policy_not_found("abc");
    assert_eq!(err.public, "Route policy not found");
    assert_eq!(err.source, "route policy abc not found");
}
