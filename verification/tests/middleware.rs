use uuid::Uuid;

use base64::engine::general_purpose::URL_SAFE_NO_PAD;
use base64::Engine;

use subseq_x402::api::auth_middleware::{
    challenge_header, extract_api_key, failure_response, header_to_trimmed, infer_resource_url,
    internal_error_response, payment_signature, resolve_request_id, AuthDecision, AuthFailure,
    AuthRun, AuthSettings, ChannelSuccess, Refusal,
};
use subseq_x402::db::policy::path_pattern_matches;
use subseq_x402::models::audit::{PaymentAuditChannel, PaymentAuditResult};
use subseq_x402::models::auth::{ApiKeyProof, X402Proof};
use subseq_x402::models::policy::{AuthChannel, AuthMode, X402RequirementDb};

fn offered() -> Vec<X402RequirementDb> {
    vec![X402RequirementDb {
        scheme: "exact".to_string(),
        network: "eip155:1".to_string(),
        amount: "1000000".to_string(),
        pay_to: "0xrecipient".to_string(),
        max_timeout_seconds: 60,
        asset: "0xasset".to_string(),
        extra: Some("{\"name\":\"USDC\"}".to_string()),
    }]
}

fn refuse(failure: Option<AuthFailure>) -> Refusal {
    failure_response(failure, &offered(), "http://localhost/mcp/x", &AuthSettings::new())
}

fn decode_header(header: &str) -> serde_json::Value {
    let bytes = URL_SAFE_NO_PAD.decode(header).expect("base64");
    serde_json::from_slice(&bytes).expect("json")
}

fn x402_pass() -> Result<ChannelSuccess, AuthFailure> {
    Ok(ChannelSuccess::X402(X402Proof {
        payer: "0xpayer".to_string(),
        network: "eip155:1".to_string(),
        scheme: "exact".to_string(),
        resource: None,
    }))
}

fn api_key_pass() -> Result<ChannelSuccess, AuthFailure> {
    Ok(ChannelSuccess::ApiKey(ApiKeyProof {
        api_key_id: Uuid::from_u128(11),
        api_key_name: "primary".to_string(),
        actor_user_id: Uuid::from_u128(12),
        mount_name: "x402".to_string(),
    }))
}

fn api_key_fail() -> Result<ChannelSuccess, AuthFailure> {
    Err(AuthFailure::ApiKeyUnauthorized { message: "Invalid API key".to_string() })
}

fn x402_challenge() -> Result<ChannelSuccess, AuthFailure> {
    Err(AuthFailure::X402Challenge { message: "Missing Payment-Signature header".to_string() })
}

fn start(mode: AuthMode, channels: Vec<AuthChannel>) -> AuthRun {
    AuthRun::start(
        Uuid::from_u128(5),
        mode,
        channels,
        "req-1".to_string(),
        "GET".to_string(),
        "/mcp/x".to_string(),
    )
}

/// Runs a policy with the given outcome for each channel it asks about;
/// gives the decision and how many channels were evaluated.
fn run(
    mode: AuthMode,
    channels: Vec<AuthChannel>,
    outcome_for: impl Fn(AuthChannel) -> Result<ChannelSuccess, AuthFailure>,
) -> (AuthDecision, usize) {
    let mut run = start(mode, channels);
    let mut evaluated = 0;
    while let Some(channel) = run.next_channel() {
        run.record(outcome_for(channel));
        evaluated += 1;
    }
    (run.finish(), evaluated)
}

#[test]
fn api_key_extraction_prefers_x_api_key() {
    assert_eq!(extract_api_key(Some("abc"), Some("Bearer def")), Some("abc".to_string()));
}

#[test]
fn api_key_extraction_falls_back_to_bearer() {
    assert_eq!(extract_api_key(None, Some("Bearer def")), Some("def".to_string()));
    assert_eq!(extract_api_key(Some("   "), Some("  Bearer  tok ")), Some("tok".to_string()));
    assert_eq!(extract_api_key(None, Some("Basic abc")), None);
    assert_eq!(extract_api_key(None, Some("Bearer   ")), None);
    assert_eq!(extract_api_key(None, None), None);
}

#[test]
fn policy_ordering_helpers_work() {
    assert!(path_pattern_matches("/mcp/*", "/mcp/foo"));
    assert!(!path_pattern_matches("/mcp/foo", "/mcp/foo/bar"));
}

#[test]
fn auth_mode_semantics_are_explicit() {
    let channels = vec![AuthChannel::X402, AuthChannel::ApiKey];
    let (decision, _) = run(AuthMode::AllOf, channels, |channel| match channel {
        AuthChannel::X402 => x402_pass(),
        AuthChannel::ApiKey => api_key_fail(),
    });
    let ok = matches!(decision, AuthDecision::Grant(_));
    assert!(!ok);
}

#[test]
fn any_of_stops_at_the_first_pass() {
    let channels = vec![AuthChannel::X402, AuthChannel::ApiKey];
    let (decision, evaluated) = run(AuthMode::AnyOf, channels, |channel| match channel {
        AuthChannel::X402 => x402_pass(),
        AuthChannel::ApiKey => api_key_fail(),
    });
    assert_eq!(evaluated, 1);
    match decision {
        AuthDecision::Grant(ctx) => {
            assert_eq!(ctx.succeeded_channels, vec!["x402".to_string()]);
            assert!(ctx.has_x402());
            assert!(!ctx.has_api_key());
            assert_eq!(ctx.request_id, "req-1");
            assert_eq!(ctx.mode, Some(AuthMode::AnyOf));
            assert_eq!(ctx.route_policy_id, Some(Uuid::from_u128(5)));
        }
        AuthDecision::Deny(_) => panic!("any-of with a passing channel must grant"),
    }
}

#[test]
fn any_of_denies_with_the_first_failure() {
    let channels = vec![AuthChannel::ApiKey, AuthChannel::X402];
    let (decision, evaluated) = run(AuthMode::AnyOf, channels, |channel| match channel {
        AuthChannel::X402 => x402_challenge(),
        AuthChannel::ApiKey => api_key_fail(),
    });
    assert_eq!(evaluated, 2);
    match decision {
        AuthDecision::Deny(Some(AuthFailure::ApiKeyUnauthorized { message })) => {
            assert_eq!(message, "Invalid API key")
        }
        _ => panic!("expected the API key failure"),
    }
}

#[test]
fn all_of_grants_when_every_channel_passes() {
    let channels = vec![AuthChannel::X402, AuthChannel::ApiKey];
    let (decision, evaluated) = run(AuthMode::AllOf, channels, |channel| match channel {
        AuthChannel::X402 => x402_pass(),
        AuthChannel::ApiKey => api_key_pass(),
    });
    assert_eq!(evaluated, 2);
    match decision {
        AuthDecision::Grant(ctx) => {
            assert_eq!(ctx.succeeded_channels, vec!["x402".to_string(), "api_key".to_string()]);
            assert!(ctx.has_x402() && ctx.has_api_key());
        }
        AuthDecision::Deny(_) => panic!("all-of with every channel passing must grant"),
    }
}

#[test]
fn all_of_evaluates_every_channel_and_reports_the_first_failure() {
    let channels = vec![AuthChannel::X402, AuthChannel::ApiKey];
    let (decision, evaluated) = run(AuthMode::AllOf, channels, |channel| match channel {
        AuthChannel::X402 => x402_challenge(),
        AuthChannel::ApiKey => api_key_fail(),
    });
    assert_eq!(evaluated, 2);
    match decision {
        AuthDecision::Deny(Some(failure)) => {
            let refusal = refuse(Some(failure));
            assert_eq!(refusal.status, 402);
            assert_eq!(refusal.body.code, "payment_required");
            assert_eq!(refusal.body.message, "Missing Payment-Signature header");
            let challenge = decode_header(refusal.payment_required.as_deref().expect("header"));
            assert_eq!(challenge["error"], "Missing Payment-Signature header");
        }
        _ => panic!("expected the payment challenge"),
    }
}

#[test]
fn record_writes_audit_rows() {
    let mut run = start(AuthMode::AllOf, vec![AuthChannel::X402, AuthChannel::ApiKey]);
    let audit = run.record(x402_pass());
    assert_eq!(audit.request_id, "req-1");
    assert_eq!(audit.route_policy_id, Some(Uuid::from_u128(5)));
    assert_eq!(audit.method, "GET");
    assert_eq!(audit.path, "/mcp/x");
    assert_eq!(audit.channel, PaymentAuditChannel::X402);
    assert_eq!(audit.result, PaymentAuditResult::Pass);
    assert_eq!(audit.status_code, 200);
    assert_eq!(audit.payer.as_deref(), Some("0xpayer"));
    assert_eq!(audit.details, "{\"mode\":\"pass\"}");

    let audit = run.record(Err(AuthFailure::ApiKeyUnauthorized { message: "Missing \"key\"".to_string() }));
    assert_eq!(audit.channel, PaymentAuditChannel::ApiKey);
    assert_eq!(audit.result, PaymentAuditResult::Fail);
    assert_eq!(audit.status_code, 401);
    assert_eq!(audit.payer, None);
    assert_eq!(audit.details, "{\"error\":\"Missing \\\"key\\\"\"}");
    assert!(run.next_channel().is_none());
}

#[test]
fn failure_audit_values_per_kind() {
    let f = AuthFailure::Internal { message: "boom".to_string() };
    let (channel, result, status, details) = f.audit_values();
    assert_eq!(channel, PaymentAuditChannel::X402);
    assert_eq!(result, PaymentAuditResult::Fail);
    assert_eq!(status, 500);
    assert_eq!(details, "{\"error\":\"boom\"}");
    assert_eq!(f.message(), "boom");

    let f = AuthFailure::X402Challenge { message: "pay".to_string() };
    let (channel, result, status, _) = f.audit_values();
    assert_eq!(channel, PaymentAuditChannel::X402);
    assert_eq!(result, PaymentAuditResult::Challenge);
    assert_eq!(status, 402);
}

#[test]
fn refusals_by_failure() {
    let r = refuse(Some(AuthFailure::ApiKeyUnauthorized { message: "Missing API key".to_string() }));
    assert_eq!((r.status, r.body.code, r.body.message.as_str(), r.payment_required), (401, "unauthorized", "Missing API key", None));
    let r = refuse(Some(AuthFailure::Internal { message: "db down".to_string() }));
    assert_eq!((r.status, r.body.code, r.body.message.as_str(), r.payment_required), (500, "internal_error", "Internal server error", None));
    let r = refuse(None);
    assert_eq!(r.status, 500);
    let r = internal_error_response();
    assert_eq!((r.status, r.body.code, r.body.message.as_str(), r.payment_required), (500, "internal_error", "Internal server error", None));
}

#[test]
fn payment_challenge_names_options_and_resource() {
    let settings = AuthSettings::new();
    assert_eq!(settings.api_key_mount_name, "default");
    assert_eq!(settings.request_id_header, "x-request-id");
    let header = challenge_header(&offered(), "http://api.test/mcp/x", &settings, "pay first").expect("header");
    let challenge = decode_header(&header);
    assert_eq!(challenge["x402Version"], 2);
    assert_eq!(challenge["error"], "pay first");
    assert_eq!(challenge["resource"]["url"], "http://api.test/mcp/x");
    assert_eq!(challenge["resource"]["description"], "x402 protected resource");
    assert_eq!(challenge["resource"]["mimeType"], "application/json");
    let accepts = challenge["accepts"].as_array().expect("accepts");
    assert_eq!(accepts.len(), 1);
    assert_eq!(accepts[0]["network"], "eip155:1");
    assert_eq!(accepts[0]["amount"], "1000000");
    assert_eq!(accepts[0]["payTo"], "0xrecipient");
    assert_eq!(accepts[0]["extra"]["name"], "USDC");

    let mut bad = offered();
    bad[0].network = "mainnet".to_string();
    let renamed = settings.with_api_key_mount_name("tools".to_string());
    assert_eq!(renamed.api_key_mount_name, "tools");
    assert_eq!(renamed.default_resource_mime_type, "application/json");
    let header = challenge_header(&bad, "http://api.test/mcp/x", &renamed, "pay").expect("header");
    assert_eq!(decode_header(&header)["accepts"].as_array().map(Vec::len), Some(0));
}

#[test]
fn headers_are_trimmed_and_blank_ones_ignored() {
    assert_eq!(header_to_trimmed(Some("  value ")), Some("value".to_string()));
    assert_eq!(header_to_trimmed(Some(" \t ")), None);
    assert_eq!(payment_signature(Some(" abc ")), Some("abc".to_string()));
    assert_eq!(payment_signature(None), None);
    assert_eq!(resolve_request_id(Some(" rid-9 "), "fresh".to_string()), "rid-9");
    assert_eq!(resolve_request_id(Some(""), "fresh".to_string()), "fresh");
    assert_eq!(resolve_request_id(None, "fresh".to_string()), "fresh");
}

#[test]
fn resource_url_from_host_and_uri() {
    assert_eq!(infer_resource_url(Some("api.test:8080"), "/mcp/x?y=1"), "http://api.test:8080/mcp/x?y=1");
    assert_eq!(infer_resource_url(None, "/a"), "http://localhost/a");
}
