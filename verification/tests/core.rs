use base64::engine::general_purpose::{URL_SAFE, URL_SAFE_NO_PAD};
use base64::Engine;
use chrono::NaiveDateTime;
use uuid::Uuid;

use subseq_x402::api::auth_middleware::{AuthFailure, ChannelSuccess};
use subseq_x402::api::x402_channel::{
    api_key_outcome, challenge_accepts, check_payment, parse_policy_accepts, payer_from_verification,
    payment_proof, require_api_key, require_profile_id, settlement_check, usable_profile,
    verify_request_for, PaymentEval, PaymentStage,
};
use subseq_x402::api::x402_wire::{SettleAnswer, VerifyAnswer};
use subseq_x402::api::{
    configured_read_roles, configured_write_roles, decide_access, forbidden_error, lookup_settles,
    parse_roles, role_lookup_error, roles_for, AppError,
};
use subseq_x402::db::audit::{
    audit_list_plan, channel_to_str, parse_channel, parse_result, result_to_str, row_to_model,
    PaymentAuditRow,
};
use subseq_x402::db::{is_unique_violation, storage_failure, was_deleted, write_failure};
use subseq_x402::error::{ErrorKind, LibError};
use subseq_x402::models::audit::{
    PaymentAuditApi, PaymentAuditChannel, PaymentAuditListQuery, PaymentAuditResult,
};
use subseq_x402::models::auth::ApiKeyProof;
use subseq_x402::models::facilitator::FacilitatorProfileDb;
use subseq_x402::models::policy::X402RequirementDb;
use subseq_x402::models::RequireRole;
use subseq_x402::text::{ends_with_char, split_char, strip_prefix, text_in, trim_end_char};

fn timestamp() -> NaiveDateTime {
    chrono::DateTime::from_timestamp(1_700_000_000, 0).expect("timestamp").naive_utc()
}

fn offered() -> Vec<X402RequirementDb> {
    vec![X402RequirementDb {
        scheme: "exact".to_string(),
        network: "eip155:1".to_string(),
        amount: "1000000".to_string(),
        pay_to: "0xrecipient".to_string(),
        max_timeout_seconds: 60,
        asset: "0xasset".to_string(),
        extra: None,
    }]
}

fn payload_json(amount: &str) -> String {
    format!(
        "{{\"x402Version\":2,\"accepted\":{{\"scheme\":\"exact\",\"network\":\"eip155:1\",\"amount\":\"{amount}\",\"payTo\":\"0xrecipient\",\"maxTimeoutSeconds\":60,\"asset\":\"0xasset\",\"extra\":null}},\"payload\":{{\"signature\":\"0xsig\"}},\"resource\":{{\"url\":\"http://localhost/mcp/x402\"}}}}"
    )
}

fn profile(enabled: bool) -> FacilitatorProfileDb {
    FacilitatorProfileDb {
        id: Uuid::from_u128(9),
        name: "default".to_string(),
        verify_url: "https://f/verify".to_string(),
        settle_url: "https://f/settle".to_string(),
        supported_url: "https://f/supported".to_string(),
        default_headers: Default::default(),
        timeout_ms: 1000,
        supported_cache_ttl_secs: 60,
        enabled,
        created_at: timestamp(),
        updated_at: timestamp(),
    }
}

#[test]
fn error_kinds_map_to_codes_and_statuses() {
    let cases = [
        (ErrorKind::Conflict, "conflict", 409),
        (ErrorKind::Database, "database_error", 500),
        (ErrorKind::Forbidden, "forbidden", 403),
        (ErrorKind::InvalidInput, "invalid_input", 400),
        (ErrorKind::NotFound, "not_found", 404),
        (ErrorKind::Unauthorized, "unauthorized", 401),
        (ErrorKind::Upstream, "upstream_error", 502),
        (ErrorKind::Unknown, "unknown_error", 500),
    ];
    for (kind, code, status) in cases {
        assert_eq!(kind.code(), code);
        let err = LibError::from_kind(kind, "public", "detail");
        assert_eq!(err.code, code);
        assert_eq!(AppError::from(err).status_code(), status);
    }
    let err = LibError::new(ErrorKind::Unknown, "custom", "shown", "hidden");
    assert_eq!(err.code, "custom");
    assert_eq!(err.message(), "shown: hidden");
    assert_eq!(LibError::conflict("a", "b").kind, ErrorKind::Conflict);
    assert_eq!(LibError::unauthorized("a", "b").kind, ErrorKind::Unauthorized);
    assert_eq!(LibError::unknown("a", "b").kind, ErrorKind::Unknown);
}

#[test]
fn role_lists_are_trimmed_deduplicated_and_never_empty() {
    assert_eq!(parse_roles(" a, b ,a,, "), vec!["a".to_string(), "b".to_string()]);
    assert_eq!(parse_roles(" , "), vec!["x402_admin".to_string()]);
    assert_eq!(parse_roles(""), vec!["x402_admin".to_string()]);
    assert_eq!(configured_read_roles(None), vec!["x402_read".to_string(), "x402_admin".to_string()]);
    assert_eq!(configured_write_roles(None), vec!["x402_admin".to_string()]);
    assert_eq!(configured_write_roles(Some("ops")), vec!["ops".to_string()]);
    assert_eq!(roles_for(RequireRole::Read, Some("viewer"), None), vec!["viewer".to_string()]);
    assert_eq!(roles_for(RequireRole::Write, Some("viewer"), None), vec!["x402_admin".to_string()]);
}

#[test]
fn authorization_errors() {
    let err = forbidden_error("u-1");
    assert_eq!(err.kind, ErrorKind::Forbidden);
    assert_eq!(err.public, "You do not have permission to access x402 administration APIs");
    assert_eq!(err.source, "user u-1 is missing required x402 role");
    let err = role_lookup_error("timeout");
    assert_eq!(err.kind, ErrorKind::Database);
    assert_eq!(err.public, "Failed to verify x402 role");
    assert_eq!(err.source, "authorize role lookup failed: timeout");
}

#[test]
fn storage_errors() {
    assert!(is_unique_violation(Some("23505")));
    assert!(!is_unique_violation(Some("23503")));
    assert!(!is_unique_violation(None));
    let err = write_failure(Some("23505"), "Profile exists", "Failed to create", "create_profile", "dup");
    assert_eq!(err.kind, ErrorKind::Conflict);
    assert_eq!(err.public, "Profile exists");
    assert_eq!(err.source, "create_profile unique violation: dup");
    let err = write_failure(None, "Profile exists", "Failed to create", "create_profile", "io");
    assert_eq!(err.kind, ErrorKind::Database);
    assert_eq!(err.public, "Failed to create");
    assert_eq!(err.source, "create_profile failed: io");
    let err = storage_failure("Failed to list", "list_profiles", "gone");
    assert_eq!(err.source, "list_profiles failed: gone");
    assert!(was_deleted(1));
    assert!(!was_deleted(0));
}

#[test]
fn audit_names_round_trip_and_rows_decode() {
    for c in [PaymentAuditChannel::X402, PaymentAuditChannel::ApiKey] {
        assert_eq!(parse_channel(channel_to_str(c)).unwrap(), c);
    }
    for r in [PaymentAuditResult::Pass, PaymentAuditResult::Fail, PaymentAuditResult::Challenge] {
        assert_eq!(parse_result(result_to_str(r)).unwrap(), r);
    }
    let err = parse_result("maybe").unwrap_err();
    assert_eq!(err.public, "Failed to decode payment audit result");
    assert_eq!(err.source, "unknown payment audit result: maybe");
    let err = parse_channel("card").unwrap_err();
    assert_eq!(err.source, "unknown payment audit channel: card");

    let row = PaymentAuditRow {
        id: Uuid::from_u128(1),
        request_id: "req-1".to_string(),
        route_policy_id: None,
        method: "GET".to_string(),
        path: "/mcp/tool".to_string(),
        channel: "x402".to_string(),
        result: "challenge".to_string(),
        status_code: 402,
        payer: None,
        api_key_id: None,
        api_key_name: None,
        details: "{}".to_string(),
        created_at: timestamp(),
    };
    let model = row_to_model(row).expect("decode");
    assert_eq!(model.channel, PaymentAuditChannel::X402);
    assert_eq!(model.result, PaymentAuditResult::Challenge);
    let api = PaymentAuditApi::from_db(model);
    assert_eq!(api.request_id, "req-1");
    assert_eq!(api.status_code, 402);
}

#[test]
fn audit_listing_plan() {
    let query = PaymentAuditListQuery {
        page: Some(2),
        limit: Some(10),
        channel: Some(PaymentAuditChannel::ApiKey),
        result: Some(PaymentAuditResult::Fail),
        request_id: Some("req-1".to_string()),
    };
    assert_eq!(query.pagination(), (2, 10));
    let plan = audit_list_plan(&query);
    assert_eq!(plan.channel, Some("api_key"));
    assert_eq!(plan.result, Some("fail"));
    assert_eq!(plan.request_id.as_deref(), Some("req-1"));
    assert_eq!((plan.limit, plan.offset), (10, 10));
    let query = PaymentAuditListQuery { page: None, limit: Some(9999), channel: None, result: None, request_id: None };
    assert_eq!(query.pagination(), (1, 500));
    let plan = audit_list_plan(&query);
    assert_eq!((plan.channel, plan.result, plan.limit, plan.offset), (None, None, 500, 0));
}

#[test]
fn policy_payment_options_read_as_wire_options() {
    let wires = parse_policy_accepts(&offered()).expect("read");
    assert_eq!(wires.len(), 1);
    assert_eq!(wires[0].network_namespace, "eip155");
    assert_eq!(wires[0].network_reference, "1");
    let mut bad = offered();
    bad[0].network = "mainnet".to_string();
    assert_eq!(
        parse_policy_accepts(&bad).unwrap_err(),
        "invalid payment requirement network 'mainnet': Invalid chain id format mainnet"
    );
    assert_eq!(challenge_accepts(&bad).len(), 0);
    let mut nested = offered();
    nested[0].network = "cosmos:chain:7".to_string();
    let wires = parse_policy_accepts(&nested).expect("read");
    assert_eq!(wires[0].network_namespace, "cosmos");
    assert_eq!(wires[0].network_reference, "chain:7");
    assert_eq!(challenge_accepts(&offered()).len(), 1);
}

#[test]
fn payment_checks() {
    match check_payment(None, &offered()) {
        Err(AuthFailure::X402Challenge { message }) => assert_eq!(message, "Missing Payment-Signature header"),
        _ => panic!("expected a challenge"),
    }
    match check_payment(Some("%%%".to_string()), &offered()) {
        Err(AuthFailure::X402Challenge { message }) => assert!(message.starts_with("Invalid payment payload: ")),
        _ => panic!("expected a challenge"),
    }
    let other = URL_SAFE_NO_PAD.encode(payload_json("5"));
    match check_payment(Some(other), &offered()) {
        Err(AuthFailure::X402Challenge { message }) => {
            assert_eq!(message, "Accepted payment requirements do not match route policy")
        }
        _ => panic!("expected a challenge"),
    }
    let signature = URL_SAFE.encode(payload_json("1000000"));
    let checked = match check_payment(Some(signature), &offered()) {
        Ok(c) => c,
        Err(f) => panic!("payment should pass the first checks: {f:?}"),
    };
    assert_eq!(checked.payload.accepted.amount, "1000000");
    assert_eq!(checked.payload.resource_url.as_deref(), Some("http://localhost/mcp/x402"));
    let body = verify_request_for(&checked).expect("verify request");
    assert!(body.contains("\"paymentPayload\""));
    assert!(body.contains("\"paymentRequirements\""));
    let proof = payment_proof("0xpayer".to_string(), checked);
    assert_eq!(proof.network, "eip155:1");
    assert_eq!(proof.scheme, "exact");
    assert_eq!(proof.payer, "0xpayer");
}

#[test]
fn facilitator_decisions() {
    assert!(require_profile_id(Some(Uuid::from_u128(9))).is_ok());
    match require_profile_id(None) {
        Err(AuthFailure::X402Challenge { message }) => assert_eq!(message, "Route policy is missing facilitator profile"),
        _ => panic!("expected a challenge"),
    }
    assert!(usable_profile(Ok(Some(profile(true)))).is_ok());
    match usable_profile(Ok(Some(profile(false)))) {
        Err(AuthFailure::X402Challenge { message }) => assert_eq!(message, "Configured facilitator profile is disabled"),
        _ => panic!("expected a challenge"),
    }
    match usable_profile(Err("pool closed".to_string())) {
        Err(AuthFailure::Internal { message }) => assert_eq!(message, "failed to load facilitator profile: pool closed"),
        _ => panic!("expected a server failure"),
    }
    assert!(matches!(usable_profile(Ok(None)), Err(AuthFailure::X402Challenge { .. })));

    assert_eq!(payer_from_verification(Ok(VerifyAnswer::Valid { payer: "0xp".to_string() })).unwrap(), "0xp");
    match payer_from_verification(Ok(VerifyAnswer::Invalid { reason: "expired".to_string(), payer: None })) {
        Err(AuthFailure::X402Challenge { message }) => assert_eq!(message, "Payment verification failed: expired"),
        _ => panic!("expected a challenge"),
    }
    match payer_from_verification(Err(LibError::upstream("ACP endpoint returned an error", "x"))) {
        Err(AuthFailure::X402Challenge { message }) => assert_eq!(message, "ACP endpoint returned an error"),
        _ => panic!("expected a challenge"),
    }
    assert!(settlement_check(Ok(SettleAnswer::Success {
        payer: "p".to_string(),
        transaction: "t".to_string(),
        network: "n".to_string()
    }))
    .is_ok());
    match settlement_check(Ok(SettleAnswer::Error { reason: "reverted".to_string(), network: "n".to_string() })) {
        Err(AuthFailure::X402Challenge { message }) => assert_eq!(message, "Payment settlement failed: reverted"),
        _ => panic!("expected a challenge"),
    }
}

#[test]
fn api_key_decisions() {
    assert_eq!(require_api_key(Some("k".to_string())).unwrap(), "k");
    match require_api_key(None) {
        Err(AuthFailure::ApiKeyUnauthorized { message }) => assert_eq!(message, "Missing API key"),
        _ => panic!("expected 401"),
    }
    match api_key_outcome(Ok(None)) {
        Err(AuthFailure::ApiKeyUnauthorized { message }) => assert_eq!(message, "Invalid API key"),
        _ => panic!("expected 401"),
    }
    match api_key_outcome(Err("db".to_string())) {
        Err(AuthFailure::Internal { message }) => assert_eq!(message, "api key auth failed: db"),
        _ => panic!("expected 500"),
    }
    let proof = ApiKeyProof {
        api_key_id: Uuid::from_u128(1),
        api_key_name: "primary".to_string(),
        actor_user_id: Uuid::from_u128(2),
        mount_name: "x402".to_string(),
    };
    match api_key_outcome(Ok(Some(proof))) {
        Ok(ChannelSuccess::ApiKey(p)) => assert_eq!(p.api_key_name, "primary"),
        _ => panic!("expected a pass"),
    }
}

#[test]
fn payment_evaluation_runs_in_order() {
    let signature = URL_SAFE_NO_PAD.encode(payload_json("1000000"));
    match PaymentEval::begin(Some(signature.clone()), &offered(), None) {
        Err(AuthFailure::X402Challenge { message }) => assert_eq!(message, "Route policy is missing facilitator profile"),
        _ => panic!("expected a challenge"),
    }
    assert!(matches!(
        PaymentEval::begin(None, &offered(), Some(Uuid::from_u128(9))),
        Err(AuthFailure::X402Challenge { .. })
    ));

    let eval = PaymentEval::begin(Some(signature), &offered(), Some(Uuid::from_u128(9))).expect("begin");
    assert!(matches!(eval.stage, PaymentStage::NeedProfile(id) if id == Uuid::from_u128(9)));
    let eval = match eval.profile_loaded(Ok(Some(profile(true)))) {
        Ok(e) => e,
        Err(f) => panic!("profile should be usable: {f:?}"),
    };
    match &eval.stage {
        PaymentStage::NeedVerification { profile, body } => {
            assert_eq!(profile.verify_url, "https://f/verify");
            assert!(body.contains("\"paymentPayload\""));
        }
        _ => panic!("expected the verification stage"),
    }
    let eval = match eval.verified(Ok(VerifyAnswer::Valid { payer: "0xpayer".to_string() })) {
        Ok(e) => e,
        Err(f) => panic!("verification should pass: {f:?}"),
    };
    assert!(matches!(&eval.stage, PaymentStage::NeedSettlement { payer, .. } if payer == "0xpayer"));
    let success = eval
        .settled(Ok(SettleAnswer::Success {
            payer: "0xpayer".to_string(),
            transaction: "0xabc".to_string(),
            network: "eip155:1".to_string(),
        }))
        .expect("settled");
    match success {
        ChannelSuccess::X402(proof) => {
            assert_eq!(proof.payer, "0xpayer");
            assert_eq!(proof.network, "eip155:1");
            assert_eq!(proof.resource.as_deref(), Some("http://localhost/mcp/x402"));
        }
        ChannelSuccess::ApiKey(_) => panic!("expected a payment proof"),
    }
}

#[test]
fn payment_evaluation_stops_at_a_disabled_profile() {
    let signature = URL_SAFE_NO_PAD.encode(payload_json("1000000"));
    let eval = PaymentEval::begin(Some(signature), &offered(), Some(Uuid::from_u128(9))).expect("begin");
    match eval.profile_loaded(Ok(Some(profile(false)))) {
        Err(AuthFailure::X402Challenge { message }) => assert_eq!(message, "Configured facilitator profile is disabled"),
        _ => panic!("expected a challenge"),
    }
}

#[test]
fn access_follows_the_first_decisive_lookup() {
    assert!(decide_access(&vec![Ok(false), Ok(true)], "u-1").is_ok());
    assert!(decide_access(&vec![Ok(true), Err("late".to_string())], "u-1").is_ok());
    let err = decide_access(&vec![Ok(false), Err("pool".to_string()), Ok(true)], "u-1").unwrap_err();
    assert_eq!(err.kind, ErrorKind::Database);
    assert_eq!(err.source, "authorize role lookup failed: pool");
    let err = decide_access(&vec![Ok(false), Ok(false)], "u-2").unwrap_err();
    assert_eq!(err.kind, ErrorKind::Forbidden);
    assert_eq!(err.source, "user u-2 is missing required x402 role");
    assert_eq!(decide_access(&vec![], "u-3").unwrap_err().kind, ErrorKind::Forbidden);
}

#[test]
fn text_primitives() {
    assert!(ends_with_char("/a/*", '*'));
    assert!(!ends_with_char("", '*'));
    assert_eq!(trim_end_char("/a/***", '*'), "/a/");
    assert_eq!(trim_end_char("***", '*'), "");
    assert_eq!(strip_prefix("Bearer tok", "Bearer "), Some("tok"));
    assert_eq!(strip_prefix("Basic tok", "Bearer "), None);
    assert!(text_in(&vec!["a".to_string(), "b".to_string()], "b"));
    assert!(!text_in(&vec![], "b"));
    assert_eq!(split_char("a,,b", ','), vec!["a", "", "b"]);
    assert_eq!(split_char("", ','), vec![""]);
}

#[test]
fn role_lookups_stop_at_a_settling_answer() {
    assert!(lookup_settles(&Ok(true)));
    assert!(lookup_settles(&Err("pool".to_string())));
    assert!(!lookup_settles(&Ok(false)));
}

#[test]
fn extra_data_compares_as_json_values() {
    let mut policy = offered();
    policy[0].extra = Some("{\"scale\":0.0,\"name\":\"USDC\"}".to_string());
    let payload = "{\"x402Version\":2,\"accepted\":{\"scheme\":\"exact\",\"network\":\"eip155:1\",\"amount\":\"1000000\",\"payTo\":\"0xrecipient\",\"maxTimeoutSeconds\":60,\"asset\":\"0xasset\",\"extra\":{\"name\":\"USDC\",\"scale\":-0.0}},\"payload\":{}}";
    let checked = check_payment(Some(URL_SAFE_NO_PAD.encode(payload)), &policy);
    assert!(checked.is_ok(), "equal JSON values must match: {checked:?}");

    let other = payload.replace("-0.0", "1.5");
    match check_payment(Some(URL_SAFE_NO_PAD.encode(other)), &policy) {
        Err(AuthFailure::X402Challenge { message }) => {
            assert_eq!(message, "Accepted payment requirements do not match route policy")
        }
        _ => panic!("different extra data must not match"),
    }
}
