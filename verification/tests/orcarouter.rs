use codexbar::binary64::Binary64;
use codexbar::provider::SourceMode;
use codexbar::providers::orcarouter::browser::{parse_wallet_quota_stdout, quota_from_helper};
use codexbar::providers::orcarouter::local_storage::{
    identities_from_records, identity_headers, is_orca_origin, merge_identities, parse_user_id, parse_workspace_id,
    BrowserIdentity, StorageRecord, StorageText,
};
use codexbar::providers::orcarouter::responses::{
    status_error, wallet_balance_from, wallet_balance_usd, StatusResponse, SubscriptionSummary, UsageResponse,
    WebSelfResponse,
};
use codexbar::providers::orcarouter::script::EDGE_CDP_WALLET_SCRIPT;
use codexbar::providers::orcarouter::wallet::{advance, no_session_error, start, wallet_context, WalletStep};
use codexbar::providers::orcarouter::workspace::{
    fetch_plan, merge_auto_results, summaries_from, summary_result, wallet_result, workspace_cost,
    workspace_snapshot, FetchPlan, Summaries,
};
use codexbar::providers::orcarouter::OrcaRouterProvider;
use codexbar::snapshot::ProviderError;
use codexbar::timestamp::Timestamp;

const NOW: Timestamp = Timestamp { secs: 1_788_500_000, nanos: 0 };

const COMPLETE_USAGE: &str = r#"{"object":"list","total_usage":4574.52}"#;
const COMPLETE_SUB: &str = r#"{
    "object": "billing_subscription",
    "has_payment_method": true,
    "soft_limit_usd": 60.0,
    "hard_limit_usd": 120.0,
    "system_hard_limit_usd": 100.0,
    "access_until": 1735689600
}"#;

const COMPLETE_WEB_SELF: &str = r#"{
    "success": true,
    "data": {
        "active_workspace": {
            "wallet_quota": 2505000
        }
    }
}"#;

const COMPLETE_STATUS: &str = r#"{
    "success": true,
    "data": {
        "quota_per_unit": 500000,
        "display_in_currency": true,
        "quota_display_type": "USD"
    }
}"#;

fn b(x: f64) -> Binary64 {
    Binary64 { bits: x.to_bits() }
}

fn f(x: Binary64) -> f64 {
    f64::from_bits(x.bits)
}

fn text(error: ProviderError) -> String {
    match error {
        ProviderError::Parse(text) | ProviderError::Other(text) => text,
        other => panic!("{other:?}"),
    }
}

#[test]
fn parses_browser_wallet_and_runtime_quota_rate() {
    let account = WebSelfResponse::parse(COMPLETE_WEB_SELF).unwrap();
    let status = StatusResponse::parse(COMPLETE_STATUS).unwrap();

    assert_eq!(account.wallet_quota().unwrap(), b(2_505_000.0));
    assert_eq!(status.quota_per_unit(), Some(b(500_000.0)));
    assert_eq!(wallet_balance_usd(account.wallet_quota().unwrap(), &status).unwrap(), b(5.01));
    assert_eq!(wallet_balance_from(Ok(account), Ok(status)).unwrap(), b(5.01));
}

#[test]
fn combined_cost_keeps_workspace_spend_and_wallet_balance_separate() {
    let sub = SubscriptionSummary::parse(COMPLETE_SUB).unwrap();
    let cost = workspace_cost(b(1499.4496), &Some(sub), Some(b(5.01)), NOW);

    assert!((f(cost.used) - 14.994496).abs() < 1e-9);
    assert_eq!(cost.limit, Some(b(100.0)));
    assert_eq!(cost.balance, Some(b(5.01)));
    assert_eq!(cost.currency_code, "USD");
    assert_eq!(cost.currency_symbol.as_deref(), Some("$"));
}

#[test]
fn provider_exposes_browser_source_for_wallet_balance() {
    let provider = OrcaRouterProvider::new();
    assert!(provider.metadata().supports_credits);
    assert!(provider.supports_web());
    assert_eq!(provider.available_sources(), vec![SourceMode::Auto, SourceMode::OAuth, SourceMode::Web]);
}

#[test]
fn manual_or_token_scoped_cookie_mode_never_falls_back_to_ambient_browser_session() {
    assert!(matches!(
        OrcaRouterProvider::resolve_web_cookie(&None, true, Ok("session=ambient".to_string())),
        Err(ProviderError::NoCookies)
    ));
}

#[test]
fn given_cookies_come_first() {
    let s = |x: &str| Some(x.to_string());
    let ambient = || Ok("ambient=1".to_string());
    let resolve = OrcaRouterProvider::resolve_web_cookie;
    assert_eq!(resolve(&s(" a=b "), true, ambient()).unwrap(), "a=b");
    assert_eq!(resolve(&s(" a=b "), false, ambient()).unwrap(), "a=b");
    assert_eq!(resolve(&s("  "), false, ambient()).unwrap(), "ambient=1");
    assert!(matches!(resolve(&None, false, Err(ProviderError::NoCookies)), Err(ProviderError::NoCookies)));
}

#[test]
fn auto_merge_falls_back_to_wallet_when_api_is_unavailable() {
    let result = merge_auto_results(Err(ProviderError::AuthRequired), Some(Ok(b(5.01))), NOW).unwrap();
    assert_eq!(result.source_label, "web");
    assert_eq!(result.cost.as_ref().and_then(|cost| cost.balance), Some(b(5.01)));
    assert_eq!(result.usage.primary.reset_description.as_deref(), Some("5.01 USD wallet balance"));
}

#[test]
fn auto_merge_keeps_api_usage_when_wallet_enrichment_fails() {
    let usage = UsageResponse::parse(COMPLETE_USAGE).unwrap();
    let subscription = SubscriptionSummary::parse(COMPLETE_SUB).unwrap();
    let result = merge_auto_results(
        Ok(Summaries { usage, subscription: Some(subscription) }),
        Some(Err(ProviderError::NoCookies)),
        NOW,
    )
    .unwrap();
    assert_eq!(result.source_label, "api");
    assert!(result.cost.as_ref().is_some_and(|cost| cost.balance.is_none()));
}

#[test]
fn merging_reports_the_error_of_the_summaries() {
    assert!(matches!(
        merge_auto_results(Err(ProviderError::AuthRequired), Some(Err(ProviderError::NoCookies)), NOW),
        Err(ProviderError::AuthRequired)
    ));
    assert!(matches!(
        merge_auto_results(Err(ProviderError::AuthRequired), None, NOW),
        Err(ProviderError::AuthRequired)
    ));
    let usage = UsageResponse::parse(COMPLETE_USAGE).unwrap();
    let both = merge_auto_results(Ok(Summaries { usage, subscription: None }), Some(Ok(b(5.01))), NOW).unwrap();
    assert_eq!(both.source_label, "api+web");
    let cost = both.cost.unwrap();
    assert!((f(cost.used) - 45.7452).abs() < 1e-9);
    assert_eq!(cost.balance, Some(b(5.01)));
}

#[test]
fn parses_complete_workspace_summary() {
    let usage = UsageResponse::parse(COMPLETE_USAGE).unwrap();
    assert!((f(usage.total_usage.unwrap()) - 4574.52).abs() < 1e-9);

    let sub = SubscriptionSummary::parse(COMPLETE_SUB).unwrap();
    assert_eq!(sub.has_payment_method, Some(true));
    assert_eq!(sub.effective_cap_usd(), Some(b(100.0)));

    let snap = workspace_snapshot(usage.total_usage.unwrap(), &Some(sub), NOW);
    let primary = &snap.primary;
    assert!((f(primary.used_percent) - 45.7452).abs() < 1e-4);
    assert_eq!(primary.reset_description.as_deref(), Some("45.75 of 100.00 USD workspace usage"));
    assert!(!primary.is_informational);
    assert_eq!(
        snap.login_method.as_deref(),
        Some("payment method on file · access until 2025-01-01")
    );
}

#[test]
fn quota_arithmetic_clamps_and_never_goes_negative() {
    let sub = Some(SubscriptionSummary::parse(COMPLETE_SUB).unwrap());
    let over = workspace_snapshot(b(25_000.0), &sub, NOW);
    assert_eq!(over.primary.used_percent, b(100.0));
    assert_eq!(
        over.primary.reset_description.as_deref(),
        Some("250.00 of 100.00 USD workspace usage")
    );

    let negative = workspace_snapshot(b(-500.0), &sub, NOW);
    assert_eq!(f(negative.primary.used_percent), 0.0);
    assert!(negative.primary.reset_description.as_deref().unwrap().starts_with("0.00 of 100.00"));
}

#[test]
fn missing_subscription_fields_do_not_become_false_zeroes() {
    let sub = SubscriptionSummary::parse(
        r#"{"object":"billing_subscription","has_payment_method":false,"soft_limit_usd":null,"hard_limit_usd":null,"system_hard_limit_usd":null,"access_until":0}"#,
    )
    .unwrap();
    assert_eq!(sub.effective_cap_usd(), None);

    let snap = workspace_snapshot(b(1250.0), &Some(sub), NOW);
    assert!(snap.primary.is_informational);
    assert_eq!(snap.primary.reset_description.as_deref(), Some("12.50 USD workspace usage"));
    assert_eq!(snap.login_method, None);
}

#[test]
fn missing_total_usage_is_an_error_not_zero() {
    let err = UsageResponse::parse(r#"{"object":"list"}"#).unwrap_err();
    assert!(matches!(err, ProviderError::Parse(_)));
}

#[test]
fn null_total_usage_is_an_error_not_zero() {
    let err = UsageResponse::parse(r#"{"object":"list","total_usage":null}"#).unwrap_err();
    assert!(matches!(err, ProviderError::Parse(_)));
}

#[test]
fn malformed_usage_json_is_a_parse_error() {
    let err = UsageResponse::parse("<html>gateway</html>").unwrap_err();
    assert!(matches!(err, ProviderError::Parse(_)));
}

#[test]
fn malformed_subscription_json_is_a_parse_error() {
    let err = SubscriptionSummary::parse("{not json").unwrap_err();
    assert!(matches!(err, ProviderError::Parse(_)));
}

#[test]
fn http_error_statuses_map_to_expected_errors() {
    assert!(matches!(status_error(401), Some(ProviderError::AuthRequired)));
    assert!(matches!(status_error(403), Some(ProviderError::AuthRequired)));
    let too_many = status_error(429).unwrap();
    assert_eq!(text(too_many), "OrcaRouter API returned status 429 Too Many Requests");
    assert!(status_error(200).is_none());
}

#[test]
fn answers_say_what_is_wrong() {
    let account = |body: &str| WebSelfResponse::parse(body).unwrap_err();
    assert!(matches!(account(r#"{"success":false}"#), ProviderError::AuthRequired));
    assert_eq!(
        text(account("{}")),
        "OrcaRouter web account response did not include active_workspace.wallet_quota"
    );
    assert_eq!(
        text(account(r#"{"data":{"active_workspace":{"wallet_quota":-1}}}"#)),
        "OrcaRouter wallet_quota was not a finite non-negative number"
    );
    assert!(text(account(r#"{"data":{"active_workspace":{"wallet_quota":"1"}}}"#))
        .starts_with("Invalid OrcaRouter web account response: "));
    for body in ["{}", r#"{"success":false,"data":{"quota_per_unit":1}}"#, r#"{"data":{"quota_per_unit":0}}"#] {
        assert_eq!(
            text(StatusResponse::parse(body).unwrap_err()),
            "OrcaRouter status response did not include a usable quota_per_unit"
        );
    }
    let status = StatusResponse { success: None, rate: None };
    assert_eq!(text(wallet_balance_usd(b(1.0), &status).unwrap_err()), "OrcaRouter quota_per_unit is unavailable");
    let account = WebSelfResponse::parse(COMPLETE_WEB_SELF).unwrap();
    assert!(matches!(
        wallet_balance_from(Ok(account), Err(ProviderError::AuthRequired)),
        Err(ProviderError::AuthRequired)
    ));
}

#[test]
fn a_missing_subscription_only_leaves_limits_out() {
    let usage = || UsageResponse::parse(COMPLETE_USAGE);
    let degraded = summaries_from(usage(), SubscriptionSummary::parse("<html>gateway</html>")).unwrap();
    assert!(degraded.subscription.is_none());
    let result = summary_result(&degraded, None, NOW);
    assert!(result.usage.primary.is_informational);
    assert_eq!(result.usage.primary.reset_description.as_deref(), Some("45.75 USD workspace usage"));
    assert!(summaries_from(Err(ProviderError::AuthRequired), SubscriptionSummary::parse(COMPLETE_SUB)).is_err());
}

#[test]
fn enormous_sentinel_caps_show_informational_not_zero_percent_quota() {
    let sub = SubscriptionSummary::parse(
        r#"{"has_payment_method":true,"soft_limit_usd":100000000,"hard_limit_usd":100000000,"system_hard_limit_usd":100000000,"access_until":0}"#,
    )
    .unwrap();

    let snap = workspace_snapshot(b(4574.52), &Some(sub), NOW);
    assert!(snap.primary.is_informational);
    assert_eq!(snap.primary.reset_description.as_deref(), Some("45.75 USD workspace usage"));
}

#[test]
fn zero_soft_only_limits_still_compute_quotas() {
    let sub = SubscriptionSummary::parse(
        r#"{"has_payment_method":false,"soft_limit_usd":50,"hard_limit_usd":50,"access_until":0}"#,
    )
    .unwrap();
    let snap = workspace_snapshot(b(1000.0), &Some(sub), NOW);
    assert!((f(snap.primary.used_percent) - 20.0).abs() < 1e-9);
    assert_eq!(
        snap.primary.reset_description.as_deref(),
        Some("10.00 of 50.00 USD workspace usage")
    );
}

fn value(text: &str) -> StorageText {
    StorageText { text: text.to_string(), lossy: false }
}

fn record(seq: u64, deleted: bool, key: &str, text: &str) -> StorageRecord {
    StorageRecord {
        origin: "https://www.orcarouter.ai".to_string(),
        key: value(key),
        value: value(text),
        seq,
        deleted,
    }
}

fn pairs(identities: &[BrowserIdentity]) -> Vec<(&str, Option<&str>)> {
    identities.iter().map(|i| (i.user_id.as_str(), i.workspace_id.as_deref())).collect()
}

#[test]
fn latest_user_record_wins_over_stale_values() {
    let records = vec![
        record(10, false, "user", r#"{"id":111}"#),
        record(12, false, "user", r#"{"id":222}"#),
        record(13, false, "active_workspace_id", "333"),
    ];
    assert_eq!(pairs(&identities_from_records(&records)), vec![("222", Some("333"))]);
}

#[test]
fn latest_tombstone_prevents_stale_login_reuse() {
    let records = vec![
        record(10, false, "user", r#"{"id":111}"#),
        record(12, true, "user", ""),
    ];
    assert!(identities_from_records(&records).is_empty());
}

#[test]
fn workspace_tombstone_does_not_reuse_stale_workspace() {
    let records = vec![
        record(10, false, "user", r#"{"id":111}"#),
        record(11, false, "active_workspace_id", "222"),
        record(12, true, "active_workspace_id", ""),
    ];
    assert_eq!(pairs(&identities_from_records(&records)), vec![("111", None)]);
}

#[test]
fn parses_numeric_and_string_user_ids_only() {
    assert_eq!(parse_user_id(r#"{"id":123}"#).as_deref(), Some("123"));
    assert_eq!(parse_user_id(r#"{"id":"abc"}"#).as_deref(), Some("abc"));
    assert!(parse_user_id(r#"{"name":"missing"}"#).is_none());
    assert!(parse_user_id("not-json").is_none());
    assert_eq!(parse_user_id(r#"{"id":1.50}"#).as_deref(), Some("1.5"));
    assert!(parse_user_id(r#"{"id":" "}"#).is_none());
}

#[test]
fn parses_numeric_and_string_workspace_ids() {
    assert_eq!(parse_workspace_id("123").as_deref(), Some("123"));
    assert_eq!(parse_workspace_id(r#""456""#).as_deref(), Some("456"));
    assert!(parse_workspace_id("").is_none());
    assert!(parse_workspace_id("not-a-number").is_none());
    assert_eq!(parse_workspace_id(" 007 ").as_deref(), Some("007"));
}

#[test]
fn identities_are_held_once() {
    let mut other = record(1, false, "user", r#"{"id":111}"#);
    other.origin = "https://orcarouter.ai".to_string();
    let mut foreign = record(9, false, "user", r#"{"id":999}"#);
    foreign.origin = "https://example.com".to_string();
    let mut damaged = record(20, false, "user", r#"{"id":888}"#);
    damaged.key.lossy = true;
    let records = vec![record(1, false, "user", r#"{"id":111}"#), other, foreign, damaged];
    assert_eq!(pairs(&identities_from_records(&records)), vec![("111", None)]);
    let mut lossy = record(2, false, "user", r#"{"id":5}"#);
    lossy.value.lossy = true;
    assert!(identities_from_records(&vec![record(1, false, "user", r#"{"id":4}"#), lossy]).is_empty());
    assert!(is_orca_origin("HTTPS://WWW.ORCAROUTER.AI"));
    assert!(!is_orca_origin("https://orcarouter.ai/"));
    let identity = |user: &str, workspace: Option<&str>| BrowserIdentity {
        user_id: user.to_string(),
        workspace_id: workspace.map(str::to_string),
    };
    let merged = merge_identities(
        vec![identity("1", None)],
        vec![identity("1", Some("a")), identity("1", None), identity("2", None)],
    );
    assert_eq!(pairs(&merged), vec![("1", None), ("1", Some("a")), ("2", None)]);
}

#[test]
fn identities_are_named_in_headers() {
    let identity = BrowserIdentity { user_id: "19915".to_string(), workspace_id: Some("19645".to_string()) };
    let headers = identity_headers(&identity, &Some("session=browser-session".to_string()));
    let names: Vec<_> = headers.iter().map(|(name, value)| (name.as_str(), value.as_str())).collect();
    assert_eq!(
        names,
        vec![
            ("Accept", "application/json"),
            ("Cache-Control", "no-store"),
            ("Cookie", "session=browser-session"),
            ("New-API-User", "19915"),
            ("X-Workspace-Id", "19645"),
        ]
    );
}

#[test]
fn parses_numeric_wallet_quota_without_exposing_browser_state() {
    assert_eq!(parse_wallet_quota_stdout(b"2505000\r\n").unwrap(), b(2_505_000.0));
    assert!(parse_wallet_quota_stdout(b"not-a-number\n").is_err());
    assert_eq!(parse_wallet_quota_stdout(b"1\n 2 \n\xff\n").unwrap(), b(2.0));
    assert_eq!(
        text(parse_wallet_quota_stdout(b"-1\n").unwrap_err()),
        "OrcaRouter CDP wallet quota was not a finite non-negative number"
    );
    assert!(matches!(quota_from_helper(false, b"1"), Err(ProviderError::NoCookies)));
}

#[test]
fn cdp_cdp_capture_does_not_extract_auth_material() {
    assert!(!EDGE_CDP_WALLET_SCRIPT.contains("localStorage"));
    assert!(!EDGE_CDP_WALLET_SCRIPT.contains("Authorization"));
    assert!(!EDGE_CDP_WALLET_SCRIPT.contains("New-Api-User"));
    assert!(EDGE_CDP_WALLET_SCRIPT.contains("Network.getResponseBody"));
    assert!(EDGE_CDP_WALLET_SCRIPT.contains("wallet_quota"));
}

#[test]
fn modes_decide_what_is_looked_at() {
    assert_eq!(fetch_plan(SourceMode::Auto, true).unwrap(), FetchPlan { summaries: true, wallet: true });
    assert_eq!(fetch_plan(SourceMode::Auto, false).unwrap(), FetchPlan { summaries: true, wallet: false });
    assert_eq!(fetch_plan(SourceMode::OAuth, true).unwrap(), FetchPlan { summaries: true, wallet: false });
    assert_eq!(fetch_plan(SourceMode::Web, false).unwrap(), FetchPlan { summaries: false, wallet: true });
    assert!(matches!(
        fetch_plan(SourceMode::Cli, true),
        Err(ProviderError::UnsupportedSource(SourceMode::Cli))
    ));
    assert_eq!(wallet_result(b(2.5), NOW).usage.primary.reset_description.as_deref(), Some("2.50 USD wallet balance"));
}

#[test]
fn wallets_are_looked_for_in_order() {
    let steps = |mode, scoped, outcomes: &[bool]| {
        let ctx = wallet_context(mode, scoped, 2);
        let mut step = start(ctx);
        let mut all = vec![step];
        for ok in outcomes {
            step = advance(ctx, step, *ok);
            all.push(step);
        }
        all
    };
    assert_eq!(
        steps(SourceMode::Auto, false, &[false, false, true, false, false, false]),
        vec![
            WalletStep::Identity(0),
            WalletStep::Identity(1),
            WalletStep::Cookie,
            WalletStep::Session(0),
            WalletStep::Session(1),
            WalletStep::CookieAlone,
            WalletStep::Report,
        ]
    );
    assert_eq!(
        steps(SourceMode::Web, false, &[false, false, true, true]),
        vec![
            WalletStep::Identity(0),
            WalletStep::Identity(1),
            WalletStep::DevTools,
            WalletStep::Rate,
            WalletStep::Found,
        ]
    );
    assert_eq!(steps(SourceMode::Web, true, &[false]), vec![WalletStep::Cookie, WalletStep::Report]);
    assert_eq!(
        steps(SourceMode::Auto, false, &[false, false, false]).last(),
        Some(&WalletStep::NoSession)
    );
    assert!(text(no_session_error()).starts_with("No authenticated OrcaRouter browser session found."));
}

/// What is read of an answer with a status and a body.
fn answer(status: u16, body: &str) -> Result<String, ProviderError> {
    match status_error(status) {
        Some(error) => Err(error),
        None => Ok(body.to_string()),
    }
}

fn fetched(usage: Result<String, ProviderError>, subscription: Result<String, ProviderError>) -> Result<Summaries, ProviderError> {
    summaries_from(
        usage.and_then(|text| UsageResponse::parse(&text)),
        subscription.and_then(|text| SubscriptionSummary::parse(&text)),
    )
}

#[test]
fn fetch_fetches_usage_and_subscription_summaries() {
    let summaries = fetched(answer(200, COMPLETE_USAGE), answer(200, COMPLETE_SUB)).unwrap();
    let total = summaries.usage.total_usage.unwrap();
    assert!((f(total) - 4574.52).abs() < 1e-9);
    assert_eq!(summaries.subscription.as_ref().unwrap().effective_cap_usd(), Some(b(100.0)));
    let snap = workspace_snapshot(total, &summaries.subscription, NOW);
    assert!((f(snap.primary.used_percent) - 45.7452).abs() < 1e-4);
    assert_eq!(
        snap.login_method.as_deref(),
        Some("payment method on file · access until 2025-01-01")
    );
}

#[test]
fn fetch_degrades_when_subscription_call_fails() {
    let summaries = fetched(answer(200, COMPLETE_USAGE), answer(500, "oops")).unwrap();
    assert!(summaries.subscription.is_none());
    let snap = workspace_snapshot(summaries.usage.total_usage.unwrap(), &summaries.subscription, NOW);
    assert!(snap.primary.is_informational);
    assert_eq!(snap.primary.reset_description.as_deref(), Some("45.75 USD workspace usage"));
}

#[test]
fn fetch_degrades_to_none_on_malformed_subscription_body() {
    let summaries = fetched(answer(200, COMPLETE_USAGE), answer(200, "<html>gateway</html>")).unwrap();
    assert!(summaries.subscription.is_none());
    let snap = workspace_snapshot(summaries.usage.total_usage.unwrap(), &summaries.subscription, NOW);
    assert!(snap.primary.is_informational);
    assert_eq!(snap.primary.reset_description.as_deref(), Some("45.75 USD workspace usage"));
}

#[test]
fn fetch_fails_when_usage_call_is_unauthorized() {
    assert!(matches!(
        fetched(answer(401, ""), answer(200, COMPLETE_SUB)),
        Err(ProviderError::AuthRequired)
    ));
}

#[test]
fn fetch_reports_parse_errors_from_usage_body() {
    assert!(matches!(
        fetched(answer(200, "<html>gateway</html>"), answer(200, COMPLETE_SUB)),
        Err(ProviderError::Parse(_))
    ));
}

#[test]
fn browser_wallet_fetch_uses_cookie_session_and_public_status_rate() {
    let cookie =
        OrcaRouterProvider::resolve_web_cookie(&Some("session=browser-session".to_string()), false, Err(ProviderError::NoCookies));
    assert_eq!(cookie.unwrap(), "session=browser-session");
    let balance = wallet_balance_from(WebSelfResponse::parse(COMPLETE_WEB_SELF), StatusResponse::parse(COMPLETE_STATUS));
    assert_eq!(balance.unwrap(), b(5.01));
}

#[test]
fn browser_wallet_fetch_uses_cookie_and_browser_identity_headers() {
    let identity = BrowserIdentity { user_id: "19915".to_string(), workspace_id: Some("19645".to_string()) };
    let headers = identity_headers(&identity, &Some("session=browser-session".to_string()));
    let value = |name: &str| headers.iter().find(|(n, _)| n.eq_ignore_ascii_case(name)).map(|(_, v)| v.as_str());
    assert_eq!(value("cookie"), Some("session=browser-session"));
    assert_eq!(value("new-api-user"), Some("19915"));
    assert_eq!(value("x-workspace-id"), Some("19645"));
    let balance = wallet_balance_from(WebSelfResponse::parse(COMPLETE_WEB_SELF), StatusResponse::parse(COMPLETE_STATUS));
    assert_eq!(balance.unwrap(), b(5.01));
}
