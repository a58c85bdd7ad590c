use chrono::NaiveDateTime;
use uuid::Uuid;

use subseq_x402::db::policy::{
    channel_names, merge_policy_patch, mode_to_str, parse_channels, parse_mode, path_pattern_matches,
    resolve_method, route_policy_list_plan, row_to_model, select_route_policy, RoutePolicyRow,
};
use subseq_x402::error::ErrorKind;
use subseq_x402::models::policy::{
    normalize_channels, normalize_http_method, normalize_path_pattern, AuthChannel, AuthMode,
    CreateRoutePolicyDb, CreateRoutePolicyRequest, RoutePolicyApi, RoutePolicyDb,
    RoutePolicyListQuery, UpdateRoutePolicyDb, UpdateRoutePolicyRequest, X402RequirementApi,
    X402RequirementDb,
};

fn timestamp() -> NaiveDateTime {
    chrono::DateTime::from_timestamp(1_700_000_000, 0).expect("timestamp").naive_utc()
}

fn requirement() -> X402RequirementDb {
    X402RequirementDb {
        scheme: "exact".to_string(),
        network: "eip155:1".to_string(),
        amount: "1000000".to_string(),
        pay_to: "0xrecipient".to_string(),
        max_timeout_seconds: 60,
        asset: "0xasset".to_string(),
        extra: None,
    }
}

fn row(pattern: &str, mode: &str, channels: Vec<&str>) -> RoutePolicyRow {
    RoutePolicyRow {
        id: Uuid::from_u128(7),
        method: "GET".to_string(),
        path_pattern: pattern.to_string(),
        mode: mode.to_string(),
        channels: Ok(channels.into_iter().map(|c| c.to_string()).collect()),
        facilitator_profile_id: None,
        x402_accepts: Ok(vec![requirement()]),
        active: true,
        created_at: timestamp(),
        updated_at: timestamp(),
    }
}

fn stored_policy() -> RoutePolicyDb {
    RoutePolicyDb {
        id: Uuid::from_u128(1),
        method: "GET".to_string(),
        path_pattern: "/mcp/*".to_string(),
        mode: AuthMode::AnyOf,
        channels: vec![AuthChannel::X402],
        facilitator_profile_id: Some(Uuid::from_u128(2)),
        x402_accepts: vec![requirement()],
        active: true,
        created_at: timestamp(),
        updated_at: timestamp(),
    }
}

#[test]
fn wildcard_matches_prefix() {
    assert!(path_pattern_matches("/mcp/*", "/mcp/foo"));
    assert!(path_pattern_matches("/mcp/*", "/mcp/foo/bar"));
    assert!(!path_pattern_matches("/mcp/*", "/other/foo"));
}

#[test]
fn exact_requires_full_match() {
    assert!(path_pattern_matches("/mcp/foo", "/mcp/foo"));
    assert!(!path_pattern_matches("/mcp/foo", "/mcp/foo/bar"));
}

#[test]
fn wildcard_strips_every_trailing_star() {
    assert!(path_pattern_matches("/mcp/**", "/mcp/x"));
    assert!(path_pattern_matches("*", "/anything"));
    assert!(path_pattern_matches("/mcp*", "/mcpx"));
    assert!(!path_pattern_matches("/mcp/*", "/mcp"));
}

#[test]
fn normalize_channels_dedupes_order() {
    let out = normalize_channels(vec![AuthChannel::X402, AuthChannel::ApiKey, AuthChannel::X402])
        .expect("normalize channels");
    assert_eq!(out, vec![AuthChannel::X402, AuthChannel::ApiKey]);
}

#[test]
fn normalize_channels_keeps_first_occurrence_order() {
    let out = normalize_channels(vec![AuthChannel::ApiKey, AuthChannel::X402, AuthChannel::ApiKey])
        .expect("normalize channels");
    assert_eq!(out, vec![AuthChannel::ApiKey, AuthChannel::X402]);
    let again = normalize_channels(out.clone()).expect("normalize channels");
    assert_eq!(again, out);
}

#[test]
fn normalize_channels_rejects_empty() {
    let err = normalize_channels(vec![]).unwrap_err();
    assert_eq!(err.kind, ErrorKind::InvalidInput);
    assert_eq!(err.code, "invalid_input");
    assert_eq!(err.public, "At least one auth channel is required");
}

#[test]
fn create_policy_normalizes_method_and_path() {
    let input = CreateRoutePolicyRequest {
        method: "post".to_string(),
        path_pattern: "/mcp/test".to_string(),
        mode: AuthMode::AnyOf,
        channels: vec![AuthChannel::X402],
        facilitator_profile_id: None,
        x402_accepts: vec![],
        active: true,
    };

    let out = CreateRoutePolicyDb::from_request(input).expect("convert");
    assert_eq!(out.method, "POST");
    assert_eq!(out.path_pattern, "/mcp/test");
}

#[test]
fn update_policy_converts_channel_patch() {
    let input = UpdateRoutePolicyRequest {
        mode: Some(AuthMode::AllOf),
        channels: Some(vec![AuthChannel::ApiKey, AuthChannel::ApiKey]),
        facilitator_profile_id: None,
        x402_accepts: None,
        active: Some(false),
    };

    let out = UpdateRoutePolicyDb::from_request(input).expect("convert");
    assert_eq!(out.channels.expect("channels"), vec![AuthChannel::ApiKey]);
}

#[test]
fn update_policy_rejects_empty_channels() {
    let input = UpdateRoutePolicyRequest {
        mode: None,
        channels: Some(vec![]),
        facilitator_profile_id: None,
        x402_accepts: None,
        active: None,
    };
    let err = UpdateRoutePolicyDb::from_request(input).unwrap_err();
    assert_eq!(err.kind, ErrorKind::InvalidInput);
}

#[test]
fn create_policy_trims_and_checks_inputs() {
    let mut input = CreateRoutePolicyRequest {
        method: "  get ".to_string(),
        path_pattern: "  /mcp/* ".to_string(),
        mode: AuthMode::AllOf,
        channels: vec![AuthChannel::ApiKey, AuthChannel::X402, AuthChannel::ApiKey],
        facilitator_profile_id: None,
        x402_accepts: vec![X402RequirementApi {
            scheme: "exact".to_string(),
            network: "eip155:1".to_string(),
            amount: "5".to_string(),
            pay_to: "0xto".to_string(),
            max_timeout_seconds: 30,
            asset: "0xasset".to_string(),
            extra: Some("{\"name\":\"USDC\"}".to_string()),
        }],
        active: false,
    };
    let out = CreateRoutePolicyDb::from_request(input.clone()).expect("convert");
    assert_eq!(out.method, "GET");
    assert_eq!(out.path_pattern, "/mcp/*");
    assert_eq!(out.channels, vec![AuthChannel::ApiKey, AuthChannel::X402]);
    assert_eq!(out.x402_accepts.len(), 1);
    assert_eq!(out.x402_accepts[0].extra.as_deref(), Some("{\"name\":\"USDC\"}"));
    assert!(!out.active);

    input.method = "   ".to_string();
    let err = CreateRoutePolicyDb::from_request(input.clone()).unwrap_err();
    assert_eq!(err.public, "HTTP method is required");
    assert_eq!(err.source, "route policy method cannot be empty");

    input.method = "get".to_string();
    input.path_pattern = "mcp/x".to_string();
    let err = CreateRoutePolicyDb::from_request(input).unwrap_err();
    assert_eq!(err.public, "Path pattern must start with '/'");
    assert_eq!(err.source, "invalid route policy path pattern: mcp/x");
}

#[test]
fn method_and_path_normalization() {
    assert_eq!(normalize_http_method(" patch ").unwrap(), "PATCH");
    assert_eq!(normalize_http_method("").unwrap_err().kind, ErrorKind::InvalidInput);
    assert_eq!(normalize_path_pattern(" /a ").unwrap(), "/a");
    assert_eq!(normalize_path_pattern(" ").unwrap_err().public, "Path pattern must start with '/'");
    assert_eq!(resolve_method(" delete "), "DELETE");
}

#[test]
fn mode_and_channel_names_round_trip() {
    for mode in [AuthMode::AnyOf, AuthMode::AllOf] {
        assert_eq!(parse_mode(mode_to_str(mode)).unwrap(), mode);
    }
    assert_eq!(mode_to_str(AuthMode::AnyOf), "any_of");
    assert_eq!(mode_to_str(AuthMode::AllOf), "all_of");
    let channels = vec![AuthChannel::ApiKey, AuthChannel::X402];
    let names = channel_names(&channels);
    assert_eq!(names, vec!["api_key".to_string(), "x402".to_string()]);
    assert_eq!(parse_channels(&names).unwrap(), channels);
}

#[test]
fn unknown_stored_names_are_database_errors() {
    let err = parse_mode("sometimes").unwrap_err();
    assert_eq!(err.kind, ErrorKind::Database);
    assert_eq!(err.public, "Failed to decode route policy mode");
    assert_eq!(err.source, "unknown auth mode: sometimes");

    let err = parse_channels(&vec!["x402".to_string(), "card".to_string()]).unwrap_err();
    assert_eq!(err.kind, ErrorKind::Database);
    assert_eq!(err.public, "Failed to decode route policy channels");
    assert_eq!(err.source, "parse_channels failed: unknown variant `card`, expected `x402` or `api_key`");
}

#[test]
fn row_decodes_into_policy() {
    let policy = row_to_model(row("/mcp/*", "all_of", vec!["x402", "api_key"])).expect("decode");
    assert_eq!(policy.mode, AuthMode::AllOf);
    assert_eq!(policy.channels, vec![AuthChannel::X402, AuthChannel::ApiKey]);
    assert_eq!(policy.path_pattern, "/mcp/*");

    let mut bad = row("/mcp/*", "any_of", vec!["x402"]);
    bad.x402_accepts = Err("expected a sequence".to_string());
    let err = row_to_model(bad).unwrap_err();
    assert_eq!(err.public, "Failed to decode x402 accepts");
    assert_eq!(err.source, "parse_accepts failed: expected a sequence");

    let mut bad = row("/mcp/*", "any_of", vec!["x402"]);
    bad.channels = Err("expected a sequence".to_string());
    let err = row_to_model(bad).unwrap_err();
    assert_eq!(err.public, "Failed to decode route policy channels");
}

#[test]
fn first_covering_row_is_selected() {
    let rows = vec![
        row("/mcp/tool/special", "all_of", vec!["api_key"]),
        row("/mcp/*", "any_of", vec!["x402"]),
        row("/*", "all_of", vec!["x402", "api_key"]),
    ];
    let picked = select_route_policy(rows, "/mcp/tool").expect("select").expect("some policy");
    assert_eq!(picked.path_pattern, "/mcp/*");
    assert_eq!(picked.mode, AuthMode::AnyOf);

    let rows = vec![row("/mcp/*", "any_of", vec!["x402"])];
    assert!(select_route_policy(rows, "/other").expect("select").is_none());

    let rows = vec![row("/mcp/*", "never", vec!["x402"]), row("/*", "any_of", vec!["x402"])];
    let err = select_route_policy(rows, "/mcp/a").unwrap_err();
    assert_eq!(err.source, "unknown auth mode: never");
}

#[test]
fn policy_patch_merges_given_fields() {
    let existing = stored_policy();
    let patch = UpdateRoutePolicyDb {
        mode: Some(AuthMode::AllOf),
        channels: Some(vec![AuthChannel::ApiKey]),
        facilitator_profile_id: Some(None),
        x402_accepts: None,
        active: Some(false),
    };
    let merged = merge_policy_patch(existing.clone(), patch);
    assert_eq!(merged.id, existing.id);
    assert_eq!(merged.path_pattern, existing.path_pattern);
    assert_eq!(merged.mode, AuthMode::AllOf);
    assert_eq!(merged.channels, vec![AuthChannel::ApiKey]);
    assert_eq!(merged.facilitator_profile_id, None);
    assert_eq!(merged.x402_accepts.len(), 1);
    assert!(!merged.active);

    let unchanged = merge_policy_patch(existing.clone(), UpdateRoutePolicyDb::default());
    assert_eq!(unchanged.mode, existing.mode);
    assert_eq!(unchanged.channels, existing.channels);
    assert_eq!(unchanged.facilitator_profile_id, existing.facilitator_profile_id);
    assert_eq!(unchanged.active, existing.active);

    let api = RoutePolicyApi::from_db(existing.clone());
    assert_eq!(api.path_pattern, existing.path_pattern);
    assert_eq!(api.x402_accepts[0].network, "eip155:1");
}

#[test]
fn list_plan_pages_and_filters() {
    let query = RoutePolicyListQuery { method: Some("get".to_string()), active: Some(true), page: Some(3), limit: Some(10) };
    let plan = route_policy_list_plan(&query);
    assert_eq!(plan.method.as_deref(), Some("GET"));
    assert_eq!(plan.active, Some(true));
    assert_eq!(plan.limit, 10);
    assert_eq!(plan.offset, 20);

    let plan = route_policy_list_plan(&RoutePolicyListQuery::default());
    assert_eq!(plan.method, None);
    assert_eq!(plan.limit, 50);
    assert_eq!(plan.offset, 0);

    let query = RoutePolicyListQuery { method: None, active: None, page: Some(0), limit: Some(1000) };
    let plan = route_policy_list_plan(&query);
    assert_eq!(plan.limit, 200);
    assert_eq!(plan.offset, 0);

    let query = RoutePolicyListQuery { method: None, active: None, page: None, limit: Some(0) };
    assert_eq!(route_policy_list_plan(&query).limit, 1);
}
