use chrono::{DateTime, Utc};
use codexbar::binary64::Binary64;
use codexbar::provider::{ProviderId, SourceMode};
use codexbar::providers::aihubmix::browser::{credits_from_helper, parse_credit_values_stdout};
use codexbar::providers::aihubmix::recharge::{funded_balance_after_read, funded_balance_from_cache_raw};
use codexbar::providers::aihubmix::script::EDGE_CDP_BALANCE_SCRIPT;
use codexbar::providers::aihubmix::{
    after_attempt, attempt_request, browser_result, fetch_plan, first_attempt, parse_self_response, platform_result,
    result_from_values, status_error, AccountValues, AiHubMixProvider, Attempt, AttemptOutcome, AttemptStep,
    CreditValues, FetchPlan, DASHBOARD_URL,
};
use codexbar::providers::cache::ReadOutcome;
use codexbar::snapshot::ProviderError;
use codexbar::timestamp::Timestamp;

const NOW: Timestamp = Timestamp { secs: 1_788_500_000, nanos: 0 };

fn b(x: f64) -> Binary64 {
    Binary64 { bits: x.to_bits() }
}

fn f(x: Binary64) -> f64 {
    f64::from_bits(x.bits)
}

fn at(text: &str) -> Timestamp {
    let t = DateTime::parse_from_rfc3339(text).unwrap().with_timezone(&Utc);
    Timestamp { secs: t.timestamp(), nanos: t.timestamp_subsec_nanos() }
}

fn parse_text(error: ProviderError) -> String {
    match error {
        ProviderError::Parse(text) | ProviderError::Other(text) => text,
        other => panic!("{other:?}"),
    }
}

#[test]
fn parses_documented_balance_units_without_retaining_identity() {
    let account = parse_self_response(
        r#"{
            "success": true,
            "data": {
                "email": "not-retained@example.com",
                "access_token": "not-retained",
                "quota": 29071257,
                "used_quota": 286403484,
                "group": "default"
            }
        }"#,
    )
    .unwrap();
    assert!((f(account.credits.balance_usd) - 58.142514).abs() < 1e-9);
    assert!((f(account.credits.used_usd.unwrap()) - 572.806968).abs() < 1e-9);
    assert_eq!(account.group.as_deref(), Some("default"));
}

#[test]
fn accepts_numeric_strings_and_rejects_invalid_balance() {
    let account =
        parse_self_response(r#"{"success":true,"data":{"quota":"500000","used_quota":"1000000"}}"#).unwrap();
    assert_eq!(account.credits.balance_usd, b(1.0));
    assert_eq!(account.credits.used_usd, Some(b(2.0)));

    assert!(parse_self_response(r#"{"success":true,"data":{"quota":-1,"used_quota":0}}"#).is_err());
    assert!(parse_self_response(r#"{"success":true,"data":{}}"#).is_err());
}

#[test]
fn unsuccessful_response_is_auth_required() {
    assert!(matches!(
        parse_self_response(r#"{"success":false,"message":"unauthorized"}"#),
        Err(ProviderError::AuthRequired)
    ));
}

#[test]
fn answers_that_say_nothing_are_errors() {
    let error = |text: &str| parse_text(parse_self_response(text).unwrap_err());
    assert!(error("<html>").starts_with("Invalid AIHubMix response: expected value"));
    assert!(error("7").starts_with("Invalid AIHubMix response: "));
    assert!(error(r#"{"success":1}"#).starts_with("Invalid AIHubMix response: "));
    assert!(error(r#"{"data":{"quota":1,"group":1}}"#).starts_with("Invalid AIHubMix response: "));
    assert_eq!(error("{}"), "AIHubMix response did not include data");
    assert_eq!(error(r#"{"data":null}"#), "AIHubMix response did not include data");
    assert_eq!(error(r#"{"data":{"quota":"inf"}}"#), "AIHubMix response did not include quota");
    assert_eq!(
        error(r#"{"data":{"quota":1,"used_quota":-1}}"#),
        "AIHubMix used_quota was not a finite non-negative number"
    );
    assert_eq!(parse_self_response(r#"{"data":{"quota":1,"group":"  "}}"#).unwrap().group, None);
}

#[test]
fn balance_result_uses_credits_style_cost_contract() {
    let result = result_from_values(
        CreditValues { balance_usd: b(12.34), used_usd: Some(b(56.78)) },
        Some("default".to_string()),
        None,
        "api",
        NOW,
    );
    assert!(result.usage.primary.is_informational);
    assert_eq!(result.usage.primary.reset_description.as_deref(), Some("12.34 USD credit balance"));
    assert_eq!(result.usage.login_method.as_deref(), Some("Group default"));
    let cost = result.cost.unwrap();
    assert_eq!(cost.used, b(0.0));
    assert_eq!(cost.limit, None);
    assert_eq!(cost.balance, Some(b(12.34)));
    assert_eq!(cost.period, "Credits");
}

#[test]
fn recharge_anchor_produces_floatbar_percentage_and_cost_limit() {
    let result = result_from_values(
        CreditValues { balance_usd: b(7.0), used_usd: Some(b(99.0)) },
        Some("default".to_string()),
        Some(b(10.0)),
        "api",
        NOW,
    );
    assert!(!result.usage.primary.is_informational);
    assert!((f(result.usage.primary.used_percent) - 30.0).abs() < 1e-9);
    assert_eq!(
        result.usage.primary.reset_description.as_deref(),
        Some("7.00 USD remaining of 10.00 USD funded")
    );
    let cost = result.cost.unwrap();
    assert_eq!(cost.used, b(3.0));
    assert_eq!(cost.limit, Some(b(10.0)));
    assert_eq!(cost.balance, Some(b(7.0)));
}

#[test]
fn browser_recharge_cache_supplies_funded_balance() {
    let now = at("2026-09-04T03:40:00Z");
    let raw = r#"{
        "version":1,
        "provider":"aihubmix",
        "observed_at":1788492600,
        "payload":{
            "funded_balance_usd":10.0,
            "funding_created_at":1788400000,
            "source":"network"
        }
    }"#;
    assert_eq!(funded_balance_from_cache_raw(raw, b(7.0), now).unwrap(), Some(b(10.0)));
}

#[test]
fn stale_or_smaller_browser_recharge_anchor_is_rejected() {
    let now = at("2026-09-04T03:40:00Z");
    let smaller = r#"{"version":1,"provider":"aihubmix","observed_at":1788492600,"payload":{"funded_balance_usd":6.0,"funding_created_at":1788400000,"source":"network"}}"#;
    assert_eq!(funded_balance_from_cache_raw(smaller, b(7.0), now).unwrap(), None);

    let stale = r#"{"version":1,"provider":"aihubmix","observed_at":1785000000,"payload":{"funded_balance_usd":10.0,"funding_created_at":1784000000,"source":"network"}}"#;
    assert_eq!(funded_balance_from_cache_raw(stale, b(7.0), now).unwrap(), None);
}

#[test]
fn browser_recharge_cache_rejects_secret_bearing_or_unknown_fields() {
    let now = at("2026-09-04T03:40:00Z");
    let raw = r#"{"version":1,"provider":"aihubmix","observed_at":1788492600,"payload":{"funded_balance_usd":10.0,"funding_created_at":1788400000,"source":"network","access_token":"must-not-cross-boundary"}}"#;
    assert!(funded_balance_from_cache_raw(raw, b(7.0), now).is_err());
}

#[test]
fn recharge_caches_say_what_is_wrong() {
    let now = at("2026-09-04T03:40:00Z");
    let cache = |version: i64, observed: i64, funded: &str, created: i64, source: &str| {
        format!(
            r#"{{"version":{version},"provider":"aihubmix","observed_at":{observed},"payload":{{"funded_balance_usd":{funded},"funding_created_at":{created},"source":"{source}"}}}}"#
        )
    };
    let error = |raw: String| parse_text(funded_balance_from_cache_raw(&raw, b(7.0), now).unwrap_err());
    let t = now.secs;
    assert!(error("{".to_string()).starts_with("Invalid AIHubMix Browser Bridge cache: EOF"));
    assert_eq!(error(cache(2, t, "10", t, "dom")), "Unsupported AIHubMix Browser Bridge cache version/provider");
    assert_eq!(
        error(cache(1, i64::MAX, "10", t, "dom")),
        "Invalid AIHubMix Browser Bridge observation timestamp"
    );
    assert!(error(cache(1, t + 61, "10", t, "dom")).contains("from the future"));
    assert_eq!(error(cache(1, t, "0", t, "dom")), "Invalid AIHubMix funded balance in Browser Bridge cache");
    assert_eq!(error(cache(1, t, "10", t, "x")), "Unknown AIHubMix Browser Bridge parser source");
    assert_eq!(
        error(cache(1, t, "10", t + 61, "dom")),
        "Invalid AIHubMix funding timestamp in Browser Bridge cache"
    );
    assert_eq!(
        funded_balance_from_cache_raw(&cache(1, t + 60, "7", t + 60, "dom"), b(7.0), now).unwrap(),
        Some(b(7.0))
    );
    assert_eq!(funded_balance_after_read("p", ReadOutcome::Missing, b(7.0), now).unwrap(), None);
    assert_eq!(
        parse_text(funded_balance_after_read("p", ReadOutcome::Failed("denied".to_string()), b(7.0), now).unwrap_err()),
        "Failed to read AIHubMix Browser Bridge cache p: denied"
    );
}

#[test]
fn metadata_exposes_topup_dashboard_and_browser_source() {
    let provider = AiHubMixProvider::new();
    assert_eq!(provider.id(), ProviderId::AiHubMix);
    assert_eq!(provider.metadata().dashboard_url, Some(DASHBOARD_URL));
    assert!(provider.metadata().supports_credits);
    assert_eq!(provider.available_sources(), vec![SourceMode::Auto, SourceMode::Web]);
}

#[test]
fn parses_only_numeric_quota_fields() {
    let values = parse_credit_values_stdout(b"29071257|286403484\r\n").unwrap();
    assert!((f(values.balance_usd) - 58.142514).abs() < 1e-9);
    assert!((f(values.used_usd.unwrap()) - 572.806968).abs() < 1e-9);

    let values = parse_credit_values_stdout(b"500000|\n").unwrap();
    assert_eq!(values.balance_usd, b(1.0));
    assert_eq!(values.used_usd, None);
}

#[test]
fn other_helper_output_is_no_session() {
    for bad in [&b""[..], b"500000\n", b"x|1\n", b"1|x\n"] {
        assert!(matches!(parse_credit_values_stdout(bad), Err(ProviderError::NoCookies)));
    }
    assert_eq!(
        parse_text(parse_credit_values_stdout(b"-1|1\n").unwrap_err()),
        "AIHubMix CDP quota was not a finite non-negative number"
    );
    assert!(matches!(credits_from_helper(false, b"1|1"), Err(ProviderError::NoCookies)));
    assert_eq!(credits_from_helper(true, b"\xff noise\n500000|1\nno pair\n").unwrap().balance_usd, b(1.0));
}

#[test]
fn cdp_capture_does_not_extract_auth_material() {
    assert!(!EDGE_CDP_BALANCE_SCRIPT.contains("localStorage"));
    assert!(!EDGE_CDP_BALANCE_SCRIPT.contains("Authorization"));
    assert!(!EDGE_CDP_BALANCE_SCRIPT.contains("Network.getAllCookies"));
    assert!(!EDGE_CDP_BALANCE_SCRIPT.contains("Network.getCookies"));
    assert!(EDGE_CDP_BALANCE_SCRIPT.contains("Network.getResponseBody"));
    assert!(EDGE_CDP_BALANCE_SCRIPT.contains("data.quota"));
    assert!(EDGE_CDP_BALANCE_SCRIPT.contains("data.used_quota"));
    assert!(EDGE_CDP_BALANCE_SCRIPT.contains("DevToolsActivePort"));
    assert!(EDGE_CDP_BALANCE_SCRIPT.contains("OwningProcess"));
}

#[test]
fn keys_are_tried_raw_before_bearer() {
    let first = first_attempt();
    assert_eq!(
        attempt_request(first, "fd1"),
        ("https://aihubmix.com/api/user/self".to_string(), "fd1".to_string())
    );
    let AttemptStep::Retry(second) = after_attempt(first, AttemptOutcome::AuthRequired) else {
        panic!("a refused key is tried again")
    };
    assert_eq!(
        attempt_request(second, "fd1"),
        ("https://aihubmix.com/api/user/self".to_string(), "Bearer fd1".to_string())
    );
    assert_eq!(after_attempt(second, AttemptOutcome::AuthRequired), AttemptStep::Report);
    let AttemptStep::Retry(backup) = after_attempt(second, AttemptOutcome::OtherError) else {
        panic!("a failing endpoint is replaced")
    };
    assert_eq!(backup, Attempt { backup: true, bearer: false });
    assert_eq!(attempt_request(backup, "k").0, "https://api.aihubmix.com/api/user/self");
    assert_eq!(after_attempt(backup, AttemptOutcome::OtherError), AttemptStep::Report);
    assert_eq!(after_attempt(backup, AttemptOutcome::Answered), AttemptStep::Use);
}

#[test]
fn keys_are_stripped() {
    let key = |raw: &str| AiHubMixProvider::resolve_manage_key(raw).ok();
    assert_eq!(key(" fd1 ").as_deref(), Some("fd1"));
    assert_eq!(key("\"Bearer  fd1\"").as_deref(), Some("fd1"));
    assert_eq!(key("'bearer fd1'").as_deref(), Some("fd1"));
    assert_eq!(key("BEARER fd1").as_deref(), Some("BEARER fd1"));
    assert_eq!(key("''"), None);
    assert_eq!(key("Bearer  "), Some("Bearer".to_string()));
    assert!(matches!(AiHubMixProvider::resolve_manage_key(""), Err(ProviderError::AuthRequired)));
}

#[test]
fn statuses_and_modes_are_told_apart() {
    assert!(matches!(status_error(401), ProviderError::AuthRequired));
    assert!(matches!(status_error(403), ProviderError::AuthRequired));
    assert_eq!(parse_text(status_error(500)), "AIHubMix API returned status 500 Internal Server Error");
    assert_eq!(fetch_plan(SourceMode::Auto).unwrap(), FetchPlan::Platform);
    assert_eq!(fetch_plan(SourceMode::Web).unwrap(), FetchPlan::Browser);
    assert!(matches!(
        fetch_plan(SourceMode::OAuth),
        Err(ProviderError::UnsupportedSource(SourceMode::OAuth))
    ));
    let account = || AccountValues {
        credits: CreditValues { balance_usd: b(7.0), used_usd: None },
        group: None,
    };
    assert_eq!(platform_result(account(), Ok(Some(b(10.0))), NOW).source_label, "api+browser-bridge");
    assert_eq!(platform_result(account(), Err(ProviderError::NoCookies), NOW).source_label, "api");
    assert_eq!(browser_result(account().credits, NOW).source_label, "browser-cdp");
}

#[test]
fn percentages_stay_in_bounds() {
    let percent = |balance: f64, funded: f64| {
        let values = CreditValues { balance_usd: b(balance), used_usd: None };
        f(result_from_values(values, None, Some(b(funded)), "api", NOW).usage.primary.used_percent)
    };
    assert_eq!(percent(0.0, 0.3), 100.0);
    assert_eq!(percent(0.3, 0.3), 0.0);
    assert_eq!(percent(-5.0, 10.0), 100.0);
    assert_eq!(percent(0.1, 0.3), (0.3 - 0.1) / 0.3 * 100.0);
    assert_eq!(percent(f64::MIN_POSITIVE, f64::MAX), 100.0);
}

#[test]
fn platform_request_uses_raw_manage_key_and_parses_balance() {
    let (url, authorization) = attempt_request(first_attempt(), "manage-test-token");
    assert!(url.ends_with("/api/user/self"));
    assert_eq!(authorization, "manage-test-token");
    let account = parse_self_response(r#"{"success":true,"data":{"quota":1250000,"used_quota":500000}}"#).unwrap();
    assert_eq!(account.credits.balance_usd, b(2.5));
    assert_eq!(account.credits.used_usd, Some(b(1.0)));
    assert_eq!(account.group, None);
}
