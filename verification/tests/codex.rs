use base64::Engine;
use chrono::{DateTime, Utc};
use codexbar::binary64::Binary64;
use codexbar::json::{parse_text, Json};
use codexbar::providers::codex::config::{
    codex_home, config_uses_non_chatgpt_provider, has_dangling_quote, missing_auth_error, normalize_base_url,
    parse_chatgpt_base_url, resolve_base_url, uses_custom_backend,
};
use codexbar::providers::codex::credentials::{
    authenticated_http_error, backend_request, cached_credentials_are_fresh, enforce_external_oauth_gate_at, parse_access_token_expiry,
    parse_credentials_json, CodexCredentials,
};
use codexbar::providers::codex::flow::{
    advance, shown, ConfirmationDecision, FetchEvent, FetchState, InitialDecision, Observation, Outcome,
};
use codexbar::providers::codex::labels::{format_plan_type, format_response_plan, slugify, titleize_limit_label};
use codexbar::providers::codex::reset_credits::{
    attach_reset_credits, decode_reset_credits, next_available_reset_credit_expiry, reset_credits_rate_window,
    ResetCredit, ResetCredits,
};
use codexbar::providers::codex::response::{
    build_result, build_result_from_json, result_from_text, with_identity, CreditDetails, RateLimitDetails, SpendControlLimitSnapshot,
    UsageResponse, WindowSnapshot,
};
use codexbar::providers::codex::windows::{
    format_reset_countdown, json_double, json_i64, minutes_of_seconds, normalize_array_windows,
    normalize_named_windows,
};
use codexbar::snapshot::{CostSnapshot, ProviderError, RateWindow, UsageSnapshot};
use codexbar::timestamp::Timestamp;

const NOW: Timestamp = Timestamp { secs: 1_783_000_000, nanos: 0 };

fn b(x: f64) -> Binary64 {
    Binary64 { bits: x.to_bits() }
}

fn stamp(t: DateTime<Utc>) -> Timestamp {
    Timestamp { secs: t.timestamp(), nanos: t.timestamp_subsec_nanos() }
}

fn at(text: &str) -> Timestamp {
    stamp(DateTime::parse_from_rfc3339(text).unwrap().with_timezone(&Utc))
}

fn json(text: &str) -> Json {
    parse_text(text).unwrap()
}

fn credit(status: Option<&str>, expires_at: Option<&str>) -> ResetCredit {
    ResetCredit {
        id: None,
        reset_type: None,
        status: status.map(str::to_string),
        expires_at: expires_at.map(str::to_string),
    }
}

#[test]
fn non_chatgpt_model_provider_is_detected_for_guidance() {
    assert!(config_uses_non_chatgpt_provider("model_provider = \"bedrock\"\n"));
    assert!(config_uses_non_chatgpt_provider("# relay\nmodel_provider = 'ollama'"));
    assert!(!config_uses_non_chatgpt_provider("model_provider = \"openai\""));
    assert!(!config_uses_non_chatgpt_provider("model = \"gpt-5\"\napproval_policy = \"never\""));
}

#[test]
fn parses_codex_credentials_without_retaining_refresh_token() {
    let credentials = parse_credentials_json(
        r#"{
            "tokens": {
                "access_token": "access",
                "refresh_token": "refresh",
                "account_id": "acct_123"
            }
        }"#,
    )
    .expect("credentials");

    assert_eq!(credentials.access_token, "access");
    assert_eq!(credentials.account_id.as_deref(), Some("acct_123"));
}

#[test]
fn decodes_reset_credits() {
    let credits = decode_reset_credits(
        br#"{"available_count":2,"credits":[{"id":"a","status":"available","expires_at":"2026-08-01T12:00:00Z"}]}"#,
    )
    .expect("reset credits");
    assert_eq!(credits.available_count, 2);
    assert_eq!(credits.credits.len(), 1);
    assert_eq!(credits.credits[0].status.as_deref(), Some("available"));
    assert_eq!(credits.credits[0].expires_at.as_deref(), Some("2026-08-01T12:00:00Z"));
}

#[test]
fn reset_credits_may_leave_fields_out() {
    let credits = decode_reset_credits(b"{}").unwrap();
    assert_eq!(credits.available_count, 0);
    assert!(credits.credits.is_empty());
    let credits = decode_reset_credits(br#"{"credits":[{"resetType":"weekly","other":1}]}"#).unwrap();
    assert_eq!(credits.credits[0].reset_type.as_deref(), Some("weekly"));
    for bad in [
        &b"{"[..],
        b"7",
        br#"{"available_count":-1}"#,
        br#"{"available_count":null}"#,
        br#"{"credits":{}}"#,
        br#"{"credits":[{"id":1}]}"#,
        br#"{"credits":[{"resetType":"a","reset_type":"b"}]}"#,
    ] {
        match decode_reset_credits(bad) {
            Err(ProviderError::Parse(text)) => assert!(text.starts_with("Failed to parse Codex reset credits: ")),
            other => panic!("{other:?}"),
        }
    }
}

#[test]
fn next_expiry_picks_soonest_available() {
    let now = at("2026-07-01T00:00:00Z");
    let credits = vec![
        credit(Some("available"), Some("2026-07-10T00:00:00Z")),
        credit(Some("available"), Some("2026-07-05T00:00:00Z")),
        credit(Some("available"), Some("2026-07-20T00:00:00Z")),
    ];
    let expiry = next_available_reset_credit_expiry(&credits, now).expect("expiry");
    assert_eq!(expiry, at("2026-07-05T00:00:00Z"));
}

#[test]
fn next_expiry_skips_past_and_non_available() {
    let now = at("2026-07-01T00:00:00Z");
    let credits = vec![
        credit(Some("available"), Some("2026-06-01T00:00:00Z")),
        credit(Some("used"), Some("2026-07-03T00:00:00Z")),
        credit(Some("AVAILABLE"), Some("2026-07-08T00:00:00Z")),
        credit(None, Some("2026-07-09T00:00:00Z")),
    ];
    let expiry = next_available_reset_credit_expiry(&credits, now).expect("expiry");
    assert_eq!(expiry, at("2026-07-08T00:00:00Z"));
}

#[test]
fn reset_credits_window_sets_informational_and_expiry() {
    let now = at("2026-07-01T00:00:00Z");
    let reset = ResetCredits {
        available_count: 2,
        credits: vec![
            credit(Some("available"), Some("2026-07-15T12:00:00Z")),
            credit(Some("available"), Some("2026-07-10T12:00:00Z")),
        ],
    };
    let window = reset_credits_rate_window(&reset, now);
    assert!(window.is_informational);
    assert_eq!(window.reset_description.as_deref(), Some("2 reset credits available"));
    assert_eq!(window.resets_at, Some(at("2026-07-10T12:00:00Z")));
}

#[test]
fn reset_credits_window_count_only_without_expiry() {
    let now = at("2026-07-01T00:00:00Z");
    let reset = ResetCredits { available_count: 1, credits: vec![] };
    let window = reset_credits_rate_window(&reset, now);
    assert!(window.is_informational);
    assert_eq!(window.reset_description.as_deref(), Some("1 reset credit available"));
    assert!(window.resets_at.is_none());
}

#[test]
fn reset_credits_are_attached_where_there_are_any() {
    let usage = || UsageSnapshot::new(RateWindow::new(b(1.0)), NOW);
    let some = attach_reset_credits(usage(), &Some(ResetCredits { available_count: 2, credits: vec![] }), NOW);
    assert_eq!(some.extra_rate_windows[0].id, "reset-credits");
    assert_eq!(some.extra_rate_windows[0].title, "Reset credits");
    let none = attach_reset_credits(usage(), &Some(ResetCredits { available_count: 0, credits: vec![] }), NOW);
    assert!(none.extra_rate_windows.is_empty());
    assert!(attach_reset_credits(usage(), &None, NOW).extra_rate_windows.is_empty());
}

#[test]
fn keeps_weekly_window_in_secondary_when_session_is_absent() {
    let (usage, _) = build_result_from_json(
        &json(
            r#"{"rate_limit":{"secondary_window":{"used_percent":25,"limit_window_seconds":604800,"reset_at":1783036800}}}"#,
        ),
        NOW,
    );

    assert!(usage.primary.is_informational);
    assert_eq!(usage.primary.window_minutes, Some(300));
    assert_eq!(usage.primary.reset_description.as_deref(), Some("No active 5h session"));

    let weekly = usage.secondary.expect("weekly window");
    assert!(!weekly.is_informational);
    assert_eq!(weekly.used_percent, b(25.0));
    assert_eq!(weekly.window_minutes, Some(10080));
    assert_eq!(weekly.resets_at, Some(Timestamp { secs: 1_783_036_800, nanos: 0 }));
    assert_eq!(weekly.reset_description.as_deref(), Some("10h 13m"));
}

#[test]
fn identifies_rate_limit_array_windows_by_duration() {
    let (usage, _) = build_result_from_json(
        &json(
            r#"{"rate_limits":[
                {"used_percent":25,"limit_window_seconds":604800,"reset_at":1783036800},
                {"used_percent":10,"limit_window_seconds":18000,"reset_at":1783018800}
            ]}"#,
        ),
        NOW,
    );

    assert!(!usage.primary.is_informational);
    assert_eq!(usage.primary.used_percent, b(10.0));
    assert_eq!(usage.primary.window_minutes, Some(300));

    let weekly = usage.secondary.expect("weekly window");
    assert_eq!(weekly.used_percent, b(25.0));
    assert_eq!(weekly.window_minutes, Some(10080));
}

#[test]
fn identifies_weekly_only_rate_limit_array_without_a_session() {
    let (usage, _) = build_result_from_json(
        &json(r#"{"rate_limits":[{"used_percent":25,"limit_window_seconds":604800,"reset_at":1783036800}]}"#),
        NOW,
    );

    assert!(usage.primary.is_informational);
    assert_eq!(usage.secondary.expect("weekly window").used_percent, b(25.0));
}

#[test]
fn maps_codex_spark_additional_rate_limits() {
    let (usage, _) = build_result_from_json(
        &json(
            r#"{
                "plan_type": "pro",
                "rate_limit": {
                    "primary_window": { "used_percent": 20, "limit_window_seconds": 18000 },
                    "secondary_window": { "used_percent": 40, "limit_window_seconds": 604800 }
                },
                "additional_rate_limits": [
                    {
                        "limit_name": "Codex Spark",
                        "metered_feature": "codex_spark",
                        "rate_limit": { "primary_window": { "used_percent": "17", "limit_window_seconds": 18000 } }
                    },
                    {
                        "limit_name": "Codex Spark Weekly",
                        "metered_feature": "codex_spark",
                        "rate_limit": { "secondary_window": { "used_percent": 62, "limit_window_seconds": 604800 } }
                    }
                ]
            }"#,
        ),
        NOW,
    );

    assert_eq!(usage.extra_rate_windows.len(), 2);
    assert_eq!(usage.extra_rate_windows[0].id, "codex-spark");
    assert_eq!(usage.extra_rate_windows[0].title, "Codex Spark 5-hour");
    assert_eq!(usage.extra_rate_windows[0].window.used_percent, b(17.0));
    assert_eq!(usage.extra_rate_windows[1].id, "codex-spark-weekly");
    assert_eq!(usage.extra_rate_windows[1].title, "Codex Spark Weekly");
    assert_eq!(usage.extra_rate_windows[1].window.used_percent, b(62.0));
    assert_eq!(usage.login_method.as_deref(), Some("ChatGPT Pro"));
}

#[test]
fn ignores_placeholder_additional_rate_limits() {
    let (usage, _) = build_result_from_json(
        &json(
            r#"{
                "rate_limit": { "primary_window": { "used_percent": 0, "limit_window_seconds": 18000 } },
                "additional_rate_limits": [
                    {
                        "limit_name": "placeholder",
                        "metered_feature": "placeholder",
                        "rate_limit": { "primary_window": {} }
                    }
                ]
            }"#,
        ),
        NOW,
    );

    assert!(usage.extra_rate_windows.is_empty());
}

#[test]
fn other_additional_limits_are_named_by_their_label() {
    let (usage, cost) = build_result_from_json(
        &json(
            r#"{
                "used_percent": 3.5,
                "credits": {"has_credits": true, "balance": 12.5},
                "additional_rate_limits": [
                    {"limit_name": " gpt_5-CODEX (max) ", "primary_window": {"used_percent": 1}},
                    {"metered_feature": "image gen", "secondary_window": {"reset_at": "1783036800"}},
                    {"limit_name": "***", "primary_window": {"used_percent": 1}},
                    {"primary_window": {"used_percent": 1}},
                    {"limit_name": "none"}
                ]
            }"#,
        ),
        NOW,
    );
    assert_eq!(usage.primary.used_percent, b(3.5));
    assert_eq!(usage.extra_rate_windows.len(), 2);
    assert_eq!(usage.extra_rate_windows[0].id, "codex-gpt-5-codex-max");
    assert_eq!(usage.extra_rate_windows[0].title, "Gpt 5 Codex (max)");
    assert_eq!(usage.extra_rate_windows[1].id, "codex-image-gen");
    assert_eq!(usage.extra_rate_windows[1].title, "Image Gen");
    assert_eq!(cost.unwrap().used, b(12.5));
    for none in [
        "{}",
        r#"{"credits":{"has_credits":false,"balance":1}}"#,
        r#"{"credits":{"has_credits":true,"unlimited":true,"balance":1}}"#,
    ] {
        assert!(build_result_from_json(&json(none), NOW).1.is_none());
    }
}

#[test]
fn maps_top_level_individual_credit_limit_to_cost_snapshot() {
    let (_, cost) = build_result(
        &UsageResponse {
            plan_type: None,
            rate_limit: None,
            credits: Some(CreditDetails {
                has_credits: Some(true),
                unlimited: Some(false),
                balance: Some(b(7.5)),
            }),
            individual_limit: Some(SpendControlLimitSnapshot {
                limit: Some(b(20.0)),
                used: Some(b(12.5)),
                remaining_percent: None,
                resets_at: Some(1783036800),
            }),
        },
        NOW,
    );
    let cost = cost.expect("cost");
    assert_eq!(cost.used, b(12.5));
    assert_eq!(cost.limit, Some(b(20.0)));
    assert!(cost.resets_at.is_some());
}

#[test]
fn maps_nested_individual_credit_limit_to_cost_snapshot() {
    let (_, cost) = build_result(
        &UsageResponse {
            plan_type: None,
            rate_limit: Some(RateLimitDetails {
                primary_window: None,
                secondary_window: None,
                code_review_window: None,
                individual_limit: Some(SpendControlLimitSnapshot {
                    limit: Some(b(100.0)),
                    used: None,
                    remaining_percent: Some(b(60.0)),
                    resets_at: None,
                }),
            }),
            credits: Some(CreditDetails {
                has_credits: Some(true),
                unlimited: Some(false),
                balance: Some(b(60.0)),
            }),
            individual_limit: None,
        },
        NOW,
    );
    let cost = cost.expect("cost");
    assert_eq!(cost.used, b(40.0));
    assert_eq!(cost.limit, Some(b(100.0)));
}

#[test]
fn typed_windows_and_limits_have_fallbacks() {
    let limit = |limit, used, remaining_percent| SpendControlLimitSnapshot { limit, used, remaining_percent, resets_at: None };
    assert_eq!(limit(Some(b(10.0)), None, None).to_cost_snapshot(b(4.0), NOW).unwrap().used, b(6.0));
    assert_eq!(limit(Some(b(10.0)), None, None).to_cost_snapshot(b(40.0), NOW).unwrap().used, b(0.0));
    assert_eq!(limit(Some(b(10.0)), Some(b(99.0)), None).to_cost_snapshot(b(0.0), NOW).unwrap().used, b(10.0));
    assert!(limit(Some(b(-1.0)), None, None).to_cost_snapshot(b(0.0), NOW).is_none());
    assert!(limit(None, Some(b(1.0)), None).to_cost_snapshot(b(0.0), NOW).is_none());
    let (usage, cost) = build_result(
        &UsageResponse {
            plan_type: Some("go".to_string()),
            rate_limit: Some(RateLimitDetails {
                primary_window: Some(WindowSnapshot {
                    used_percent: 40,
                    reset_at: Some(i64::MAX),
                    limit_window_seconds: Some(604_800),
                }),
                secondary_window: None,
                code_review_window: None,
                individual_limit: None,
            }),
            credits: Some(CreditDetails { has_credits: Some(true), unlimited: None, balance: None }),
            individual_limit: None,
        },
        NOW,
    );
    assert!(usage.primary.is_informational);
    let weekly = usage.secondary.unwrap();
    assert_eq!(weekly.used_percent, b(40.0));
    assert!(weekly.resets_at.is_none());
    assert_eq!(usage.login_method.as_deref(), Some("ChatGPT Go"));
    assert_eq!(cost.unwrap().used, b(0.0));
}

fn win(minutes: u32, used: f64) -> RateWindow {
    RateWindow::with_details(b(used), Some(minutes), None, None)
}

#[test]
fn f5_normalize_array_routes_session_weekly_monthly_to_lanes() {
    let windows = vec![win(300, 10.0), win(10_080, 20.0), win(43_200, 30.0)];
    let (primary, secondary, tertiary, code_review) = normalize_array_windows(windows);
    assert_eq!(primary.window_minutes, Some(300));
    assert_eq!(secondary.unwrap().window_minutes, Some(10_080));
    assert_eq!(tertiary.unwrap().window_minutes, Some(43_200));
    assert!(code_review.is_none());
}

#[test]
fn f5_normalize_array_monthly_routes_to_tertiary_not_secondary() {
    let windows = vec![win(43_200, 50.0), win(10_080, 20.0)];
    let (primary, secondary, tertiary, _) = normalize_array_windows(windows);
    assert_eq!(primary.window_minutes, Some(300));
    assert_eq!(secondary.unwrap().window_minutes, Some(10_080));
    assert_eq!(tertiary.unwrap().window_minutes, Some(43_200));
}

#[test]
fn f5_normalize_array_empty_returns_placeholder_primary() {
    let (primary, secondary, tertiary, code_review) = normalize_array_windows(vec![]);
    assert!(primary.is_informational);
    assert!(secondary.is_none());
    assert!(tertiary.is_none());
    assert!(code_review.is_none());
}

#[test]
fn f5_normalize_array_unknown_windows_fall_to_code_review() {
    let windows = vec![win(300, 10.0), win(999, 5.0)];
    let (primary, secondary, tertiary, code_review) = normalize_array_windows(windows);
    assert_eq!(primary.window_minutes, Some(300));
    assert!(secondary.is_none());
    assert!(tertiary.is_none());
    assert_eq!(code_review.unwrap().window_minutes, Some(999));
}

#[test]
fn windows_without_any_role_keep_their_places() {
    let (primary, secondary, tertiary, code_review) =
        normalize_array_windows(vec![win(1, 1.0), win(2, 2.0), win(3, 3.0), win(4, 4.0), win(5, 5.0)]);
    assert_eq!(primary.used_percent, b(1.0));
    assert_eq!(secondary.unwrap().used_percent, b(2.0));
    assert_eq!(tertiary.unwrap().used_percent, b(3.0));
    assert_eq!(code_review.unwrap().used_percent, b(4.0));
    let (_, weekly, _, spare) = normalize_array_windows(vec![win(10_080, 1.0), win(10_080, 2.0)]);
    assert_eq!(weekly.unwrap().used_percent, b(1.0));
    assert_eq!(spare.unwrap().used_percent, b(2.0));
}

#[test]
fn named_windows_are_placed_by_length() {
    let place = |a: Option<u32>, b: Option<u32>| {
        let (p, s) = normalize_named_windows(a.map(|m| win(m, 1.0)), b.map(|m| win(m, 2.0)));
        (p.is_informational, p.window_minutes, s.map(|w| w.window_minutes.unwrap()))
    };
    assert_eq!(place(None, None), (true, Some(300), None));
    assert_eq!(place(Some(10_080), None), (true, Some(300), Some(10_080)));
    assert_eq!(place(None, Some(300)), (false, Some(300), None));
    assert_eq!(place(Some(10_080), Some(300)), (false, Some(300), Some(10_080)));
    assert_eq!(place(Some(10_080), Some(7)), (true, Some(300), Some(10_080)));
    assert_eq!(place(Some(7), Some(300)), (false, Some(300), Some(7)));
    assert_eq!(place(Some(300), Some(10_080)), (false, Some(300), Some(10_080)));
    assert_eq!(place(Some(43_200), Some(300)), (false, Some(43_200), Some(300)));
}

#[test]
fn confirmation_failure_fallback_keeps_first_successful_usage_and_cost() {
    let first = UsageSnapshot::new(RateWindow::new(b(10.0)), NOW).with_secondary(RateWindow::new(b(0.5)));
    let preserved = UsageSnapshot::new(RateWindow::new(b(10.0)), NOW).with_secondary(RateWindow::new(b(0.5)));
    let cost = Some(CostSnapshot::new(b(3.25), "USD", "Monthly", NOW));
    let state = advance(FetchState::Confirming, FetchEvent::ObservationFailed);
    let FetchState::Done(outcome) = state else {
        panic!("{state:?}")
    };
    let (usage, kept_cost) = shown(outcome, (first, cost), None, Some(preserved));
    assert!((f64::from_bits(usage.secondary.expect("weekly").used_percent.bits) - 0.5).abs() < f64::EPSILON);
    assert_eq!(kept_cost.expect("cost").used, b(3.25));
}

#[test]
fn fetches_publish_what_was_judged() {
    let judge = |d| advance(advance(FetchState::Observing, FetchEvent::Observed), FetchEvent::Judged(d));
    assert_eq!(judge(InitialDecision::Publish), FetchState::Done(Outcome::Publish(Observation::First)));
    assert_eq!(judge(InitialDecision::Preserve), FetchState::Done(Outcome::Preserve));
    let both = advance(judge(InitialDecision::RequiresConfirmation), FetchEvent::Observed);
    assert_eq!(both, FetchState::JudgingBoth);
    assert_eq!(
        advance(both, FetchEvent::JudgedBoth(ConfirmationDecision::Publish)),
        FetchState::Done(Outcome::Publish(Observation::Confirmation))
    );
    assert_eq!(
        advance(both, FetchEvent::JudgedBoth(ConfirmationDecision::Preserve)),
        FetchState::Done(Outcome::Preserve)
    );
    assert_eq!(
        advance(FetchState::Observing, FetchEvent::ObservationFailed),
        FetchState::Done(Outcome::Fail)
    );
}

fn gate(credentials: &CodexCredentials) -> Result<(), ProviderError> {
    enforce_external_oauth_gate_at(credentials, false, stamp(Utc::now()))
}

fn external(last_refresh: Option<Timestamp>) -> CodexCredentials {
    CodexCredentials {
        access_token: "access".to_string(),
        account_id: None,
        is_external_oauth: true,
        access_token_expires_at: None,
        last_refresh,
    }
}

#[test]
fn api_key_credentials_are_not_external_oauth() {
    let creds = parse_credentials_json(r#"{"OPENAI_API_KEY": "sk-test"}"#).expect("credentials");
    assert!(!creds.is_external_oauth);
    assert!(creds.access_token_expires_at.is_none());
    assert!(creds.last_refresh.is_none());
    assert!(gate(&creds).is_ok());
}

#[test]
fn oauth_tokens_with_refresh_token_are_external_source() {
    let creds = parse_credentials_json(
        r#"{
            "tokens": {
                "access_token": "access",
                "refresh_token": "refresh",
                "account_id": "acct_123"
            }
        }"#,
    )
    .expect("credentials");
    assert!(creds.is_external_oauth);
    assert!(creds.access_token_expires_at.is_none());
    assert!(creds.last_refresh.is_none());
}

#[test]
fn oauth_tokens_without_refresh_token_are_not_external() {
    let creds = parse_credentials_json(
        r#"{
            "tokens": {
                "access_token": "access",
                "account_id": "acct_123"
            }
        }"#,
    )
    .expect("credentials");
    assert!(!creds.is_external_oauth);
}

#[test]
fn external_oauth_gate_fails_closed_for_stale_tokens() {
    let err = gate(&external(None)).expect_err("stale external OAuth must fail closed");
    assert!(matches!(err, ProviderError::AuthRequired));
}

#[test]
fn external_oauth_gate_fails_closed_for_old_last_refresh() {
    let old = stamp(Utc::now() - chrono::Duration::days(10));
    let err = gate(&external(Some(old))).expect_err("old external OAuth must fail closed");
    assert!(matches!(err, ProviderError::AuthRequired));
}

#[test]
fn external_oauth_gate_passes_fresh_tokens() {
    let fresh = stamp(Utc::now() - chrono::Duration::hours(1));
    assert!(gate(&external(Some(fresh))).is_ok());
}

#[test]
fn the_gate_opens_at_its_edges() {
    let creds = external(Some(Timestamp { secs: NOW.secs - 8 * 86_400, nanos: 0 }));
    assert!(enforce_external_oauth_gate_at(&creds, false, NOW).is_ok());
    assert!(enforce_external_oauth_gate_at(&creds, false, Timestamp { secs: NOW.secs, nanos: 1 }).is_err());
    assert!(enforce_external_oauth_gate_at(&external(None), true, NOW).is_ok());
    let mut creds = external(None);
    creds.access_token_expires_at = Some(Timestamp { secs: NOW.secs + 300, nanos: 0 });
    assert!(enforce_external_oauth_gate_at(&creds, true, NOW).is_err());
    creds.access_token_expires_at = Some(Timestamp { secs: NOW.secs + 300, nanos: 1 });
    assert!(enforce_external_oauth_gate_at(&creds, false, NOW).is_ok());
}

#[test]
fn external_oauth_future_jwt_expiry_overrides_old_last_refresh() {
    let now = Utc::now();
    let future = now + chrono::Duration::hours(2);
    let payload = base64::engine::general_purpose::URL_SAFE_NO_PAD
        .encode(format!(r#"{{"exp":{}}}"#, future.timestamp()));
    let token = format!("header.{payload}.signature");
    let json = format!(
        r#"{{"tokens":{{"access_token":"{token}","refresh_token":"refresh"}},"last_refresh":"2026-01-01T00:00:00Z"}}"#
    );
    let creds = parse_credentials_json(&json).expect("credentials");
    assert!(creds.access_token_expires_at.is_some());
    assert!(enforce_external_oauth_gate_at(&creds, false, stamp(now)).is_ok());
    assert!(enforce_external_oauth_gate_at(&creds, true, stamp(now)).is_ok());
}

#[test]
fn external_oauth_gate_requires_cli_refresh_when_jwt_is_near_expiry() {
    let soon = Utc::now() + chrono::Duration::minutes(2);
    let payload = base64::engine::general_purpose::URL_SAFE_NO_PAD
        .encode(format!(r#"{{"exp":{}}}"#, soon.timestamp()));
    let token = format!("header.{payload}.signature");
    let json = format!(
        r#"{{"tokens":{{"access_token":"{token}","refresh_token":"refresh"}},"last_refresh":"{}"}}"#,
        Utc::now().to_rfc3339()
    );
    let creds = parse_credentials_json(&json).expect("credentials");
    let err = gate(&creds).expect_err("near-expiry native OAuth must refresh through the CLI");
    assert!(matches!(err, ProviderError::AuthRequired));
}

#[test]
fn malformed_or_opaque_jwt_falls_back_to_last_refresh() {
    let fresh = Utc::now().to_rfc3339();
    let json = format!(
        r#"{{"tokens":{{"access_token":"opaque-token","refresh_token":"refresh"}},"last_refresh":"{fresh}"}}"#
    );
    let creds = parse_credentials_json(&json).expect("credentials");
    assert!(creds.access_token_expires_at.is_none());
    assert!(gate(&creds).is_ok());
}

#[test]
fn token_payloads_may_be_padded() {
    let padded = base64::engine::general_purpose::URL_SAFE.encode(br#"{"exp":1}"#);
    let longer = base64::engine::general_purpose::URL_SAFE.encode(br#"{"exp":10}"#);
    assert!(padded.ends_with('=') || longer.ends_with('='));
    assert_eq!(
        parse_access_token_expiry(&format!("a.{padded}")),
        Some(Timestamp { secs: 1, nanos: 0 })
    );
    assert_eq!(
        parse_access_token_expiry(&format!("a.{longer}.c.d")),
        Some(Timestamp { secs: 10, nanos: 0 })
    );
    for bad in ["", "a", "a.!!.c", "a.e30.c", "a.eyJleHAiOiIxIn0.c"] {
        assert_eq!(parse_access_token_expiry(bad), None, "{bad}");
    }
}

#[test]
fn credentials_that_say_nothing_are_errors() {
    let error = |text: &str| match parse_credentials_json(text) {
        Err(ProviderError::Parse(text)) => text,
        other => panic!("{other:?}"),
    };
    assert!(error("{").starts_with("Invalid Codex credentials JSON: EOF"));
    assert_eq!(error("{}"), "Codex auth.json exists but contains no tokens.");
    assert_eq!(error(r#"{"OPENAI_API_KEY":" "}"#), "Codex auth.json exists but contains no tokens.");
    assert_eq!(error(r#"{"tokens":{"access_token":""}}"#), "Missing access_token in Codex credentials");
    let key = parse_credentials_json(r#"{"OPENAI_API_KEY":" k ","tokens":{"access_token":"t"}}"#).unwrap();
    assert_eq!(key.access_token, "k");
}

#[test]
fn requests_carry_the_credentials() {
    let mut creds = external(None);
    let request = backend_request(&creds, "https://x", "/wham/usage");
    assert_eq!(request.url, "https://x/wham/usage");
    assert_eq!(request.headers[0], ("Authorization".to_string(), "Bearer access".to_string()));
    assert_eq!(request.headers.len(), 3);
    creds.account_id = Some("acct".to_string());
    let request = backend_request(&creds, "https://x", "/wham/usage");
    assert_eq!(request.headers[3], ("ChatGPT-Account-Id".to_string(), "acct".to_string()));
    assert!(cached_credentials_are_fresh(true, Some(1), Some(1), 5_000_000_000));
    assert!(!cached_credentials_are_fresh(true, Some(1), Some(1), 5_000_000_001));
    assert!(!cached_credentials_are_fresh(true, Some(1), None, 0));
    assert!(!cached_credentials_are_fresh(false, None, None, 0));
}

#[test]
fn identities_complete_a_snapshot() {
    let usage = || UsageSnapshot::new(RateWindow::new(b(1.0)), NOW);
    let s = |x: &str| Some(x.to_string());
    let full = with_identity(usage(), s("me@x"), s("plus"));
    assert_eq!(full.account_email.as_deref(), Some("me@x"));
    assert_eq!(full.login_method.as_deref(), Some("ChatGPT Plus"));
    let kept = with_identity(usage().with_login_method("Own".to_string()), None, s("plus"));
    assert_eq!(kept.login_method.as_deref(), Some("Own"));
}

#[test]
fn base_urls_are_normalised_and_trusted() {
    assert_eq!(normalize_base_url(" "), "https://chatgpt.com/backend-api");
    assert_eq!(normalize_base_url("https://chatgpt.com//"), "https://chatgpt.com/backend-api");
    assert_eq!(normalize_base_url("https://chat.openai.com"), "https://chat.openai.com/backend-api");
    assert_eq!(normalize_base_url("https://chatgpt.com/backend-api/"), "https://chatgpt.com/backend-api");
    assert_eq!(normalize_base_url("https://x.example/"), "https://x.example");
    assert_eq!(parse_chatgpt_base_url("# a\nother = 1\nchatgpt_base_url = \" https://x \" # c"), Some("https://x".to_string()));
    assert_eq!(parse_chatgpt_base_url("chatgpt_base_url='https://x'"), Some("https://x".to_string()));
    assert_eq!(parse_chatgpt_base_url("x = 1"), None);
    assert_eq!(resolve_base_url(None), "https://chatgpt.com/backend-api");
    assert_eq!(resolve_base_url(Some("chatgpt_base_url = \"https://x/\"")), "https://x");
    assert_eq!(resolve_base_url(Some("chatgpt_base_url = \"http://127.0.0.1:9/\"")), "http://127.0.0.1:9");
    assert_eq!(resolve_base_url(Some("chatgpt_base_url = \"http://evil\"")), "https://chatgpt.com/backend-api");
    assert!(has_dangling_quote("chatgpt_base_url = \""));
    assert!(!has_dangling_quote("chatgpt_base_url = \"\""));
    assert!(uses_custom_backend(Some("chatgpt_base_url = \"\"")));
    assert!(!uses_custom_backend(None));
    match missing_auth_error(Some("model_provider = \"bedrock\"")) {
        ProviderError::NotInstalled(text) => assert!(text.starts_with("Codex uses a custom backend")),
        other => panic!("{other:?}"),
    }
    match missing_auth_error(None) {
        ProviderError::NotInstalled(text) => assert!(text.starts_with("Codex auth.json not found.")),
        other => panic!("{other:?}"),
    }
    let s = |x: &str| Some(x.to_string());
    assert_eq!(codex_home(s("/a"), s("/b")), s("/a"));
    assert_eq!(codex_home(None, s(" /b ")), s("/b"));
    assert_eq!(codex_home(None, s("  ")), None);
}

#[test]
fn countdowns_use_their_two_largest_units() {
    let left = |secs: i64| format_reset_countdown(Some(Timestamp { secs: NOW.secs + secs, nanos: 0 }), NOW).unwrap();
    assert_eq!(left(0), "now");
    assert_eq!(left(-5), "now");
    assert_eq!(left(59), "0m");
    assert_eq!(left(60), "1m");
    assert_eq!(left(3600), "1h");
    assert_eq!(left(3661), "1h 1m");
    assert_eq!(left(86_400), "1d");
    assert_eq!(left(90_000), "1d 1h");
    assert_eq!(format_reset_countdown(None, NOW), None);
}

#[test]
fn numbers_may_be_written_as_texts() {
    assert_eq!(json_double(&json("1.5")), Some(b(1.5)));
    assert_eq!(json_double(&json(r#"" 17 ""#)), Some(b(17.0)));
    assert_eq!(json_double(&json("null")), None);
    assert_eq!(json_i64(&json("7")), Some(7));
    assert_eq!(json_i64(&json(r#"" -7 ""#)), Some(-7));
    assert_eq!(json_i64(&json("7.5")), None);
    assert_eq!(minutes_of_seconds(604_800), Some(10_080));
    assert_eq!(minutes_of_seconds(-59), Some(0));
    assert_eq!(minutes_of_seconds(-60), None);
    assert_eq!(minutes_of_seconds(i64::MAX), None);
}

#[test]
fn plans_and_labels_are_readable() {
    for (plan, name) in [
        ("guest", "Guest"),
        ("free", "ChatGPT Free"),
        ("go", "Codex Go"),
        ("plus", "ChatGPT Plus"),
        ("pro", "ChatGPT Pro"),
        ("prolite", "Pro Lite"),
        ("team", "ChatGPT Team"),
        ("business", "ChatGPT Business"),
        ("enterprise", "ChatGPT Enterprise"),
        ("edu", "ChatGPT Education"),
        ("freeWorkspace", "Free Workspace"),
        ("quorum", "Codex Quorum"),
        ("k12", "Codex K12"),
        ("éclair", "ChatGPT Éclair"),
    ] {
        assert_eq!(format_plan_type(plan), name);
    }
    assert_eq!(format_response_plan("go"), "ChatGPT Go");
    assert_eq!(format_response_plan("k12"), "ChatGPT K12");
    assert_eq!(slugify("--GPT 5__Max!"), "gpt-5-max");
    assert_eq!(slugify("日本"), "");
    assert_eq!(titleize_limit_label("code_review-LIMIT"), "Code Review Limit");
}

#[test]
fn lanes_do_not_depend_on_the_order() {
    let lengths = [300, 10_080, 43_200, 999];
    let minutes = |w: Option<RateWindow>| w.unwrap().window_minutes.unwrap();
    for shift in 0..lengths.len() {
        let mut order = lengths;
        order.rotate_left(shift);
        for row in [order.to_vec(), order.iter().rev().copied().collect()] {
            let (primary, secondary, monthly, spare) =
                normalize_array_windows(row.iter().map(|m| win(*m, 1.0)).collect());
            assert_eq!(
                (primary.window_minutes.unwrap(), minutes(secondary), minutes(monthly), minutes(spare)),
                (300, 10_080, 43_200, 999)
            );
        }
    }
}

#[test]
fn authenticated_codex_http_distinguishes_401_from_403() {
    for (status, expects_authentication) in [(401, true), (403, false)] {
        let error = authenticated_http_error(status, "fixture refusal", "Codex API").unwrap();
        if expects_authentication {
            assert!(matches!(error, ProviderError::AuthRequired));
        } else {
            match error {
                ProviderError::Other(message) => {
                    assert!(message.contains("403"));
                    assert!(message.contains("fixture refusal"));
                    assert_eq!(message, "Codex API returned HTTP 403 Forbidden: fixture refusal");
                }
                other => panic!("{other:?}"),
            }
        }
    }
    assert!(authenticated_http_error(204, "", "Codex API").is_none());
}

fn fetched(reset_body: &str, now: DateTime<Utc>) -> UsageSnapshot {
    let body =
        r#"{"plan_type":"plus","rate_limit":{"primary_window":{"used_percent":10,"limit_window_seconds":18000}}}"#;
    let (usage, _) = build_result_from_json(&json(body), stamp(now));
    let credits = decode_reset_credits(reset_body.as_bytes()).ok();
    attach_reset_credits(usage, &credits, stamp(now))
}

#[test]
fn fetch_usage_attaches_reset_credits_from_http() {
    let now = Utc::now();
    let soonest = (now + chrono::Duration::days(5)).to_rfc3339();
    let later = (now + chrono::Duration::days(12)).to_rfc3339();
    let usage = fetched(
        &format!(
            r#"{{"available_count":2,"credits":[
                {{"status":"available","expires_at":"{later}"}},
                {{"status":"available","expires_at":"{soonest}"}}
            ]}}"#
        ),
        now,
    );
    let extra =
        usage.extra_rate_windows.iter().find(|w| w.id == "reset-credits").expect("reset-credits window attached");
    assert_eq!(extra.title, "Reset credits");
    assert!(extra.window.is_informational);
    assert_eq!(extra.window.reset_description.as_deref(), Some("2 reset credits available"));
    assert_eq!(extra.window.resets_at, Some(at(&soonest)));
}

#[test]
fn fetch_usage_skips_reset_credits_when_available_count_zero() {
    let usage = fetched(r#"{"available_count":0,"credits":[]}"#, Utc::now());
    assert!(usage.extra_rate_windows.iter().all(|w| w.id != "reset-credits"));
}

#[test]
fn slugs_are_stable() {
    for label in ["--GPT 5__Max!", "a", "", "Ünï code-X"] {
        assert_eq!(slugify(&slugify(label)), slugify(label));
    }
}

#[test]
fn usage_answers_are_read_from_text() {
    let text = r#"{"plan_type":"plus","rate_limit":{"primary_window":{"used_percent":10,"limit_window_seconds":18000}},
        "credits":{"has_credits":true,"balance":2.5}}"#;
    let (usage, cost) = result_from_text(text, NOW).unwrap();
    assert_eq!(usage.primary.used_percent, b(10.0));
    assert_eq!(usage.primary.window_minutes, Some(300));
    assert_eq!(usage.login_method.as_deref(), Some("ChatGPT Plus"));
    assert_eq!(cost.unwrap().used, b(2.5));
    match result_from_text("<html>", NOW) {
        Err(ProviderError::Parse(error)) => assert_eq!(error, "expected value at line 1 column 1"),
        other => panic!("{other:?}"),
    }
}
