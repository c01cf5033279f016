use chrono::{DateTime, Utc};
use codexbar::binary64::Binary64;
use codexbar::provider::{ProviderId, SourceMode};
use codexbar::providers::cache::{helper_timeout_ms, ReadOutcome, ReadStep, CLOCK_SKEW_SECONDS, MAX_CACHE_AGE_SECONDS};
use codexbar::providers::geminiapi::browser::parse_spend_stdout;
use codexbar::providers::geminiapi::script::AI_STUDIO_CDP_SPEND_SCRIPT;
use codexbar::providers::geminiapi::{self, result_from_cache, GeminiApiProvider};
use codexbar::providers::geminiapps::{
    after_read, cache_filename, fetch_from_cache, usage_from_cache, GeminiAppsProvider, LEGACY_POC_CACHE_FILENAME,
    STABLE_CACHE_FILENAME,
};
use codexbar::snapshot::ProviderError;
use codexbar::timestamp::Timestamp;
use serde_json::Value;

fn b(x: f64) -> Binary64 {
    Binary64 { bits: x.to_bits() }
}

fn at(text: &str) -> Timestamp {
    let t = DateTime::parse_from_rfc3339(text).unwrap().with_timezone(&Utc);
    Timestamp { secs: t.timestamp(), nanos: t.timestamp_subsec_nanos() }
}

fn apps_cache(observed_at: i64) -> String {
    format!(
        r#"{{
            "version": 1,
            "provider": "gemini-apps",
            "observed_at": {observed_at},
            "payload": {{
                "account_id": "0",
                "plan": "Pro",
                "source": "jSf9Qc",
                "current": {{"label": "Current usage", "used_percent": 12.5, "resets_at": "2026-08-29T12:00:00Z"}},
                "weekly": {{"label": "Weekly limit", "used_percent": 37.25, "resets_at": "2026-09-03T12:00:00Z"}}
            }}
        }}"#
    )
}

fn spend_cache(observed_at: i64) -> String {
    format!(
        r#"{{
            "version": 1,
            "provider": "gemini-api",
            "observed_at": {observed_at},
            "payload": {{
                "used": 12.34,
                "limit": 50.0,
                "currency": "USD",
                "period": "Current month",
                "resets_at": "2026-10-01T00:00:00Z",
                "scope": "Project ab12cd34",
                "source": "dom"
            }}
        }}"#
    )
}

fn edited(raw: String, edit: impl Fn(&mut Value)) -> String {
    let mut value: Value = serde_json::from_str(&raw).unwrap();
    edit(&mut value);
    value.to_string()
}

fn text(error: ProviderError) -> String {
    match error {
        ProviderError::Parse(text) | ProviderError::Other(text) | ProviderError::NotInstalled(text) => text,
        other => panic!("{other:?}"),
    }
}

#[test]
fn converts_bridge_cache_to_current_and_weekly_rate_windows() {
    let now = at("2026-08-29T11:55:00Z");
    let usage = usage_from_cache(&apps_cache(now.secs - 60), now).unwrap();

    assert_eq!(usage.primary.used_percent, b(12.5));
    assert_eq!(usage.primary.window_minutes, Some(300));
    assert_eq!(usage.secondary.as_ref().unwrap().used_percent, b(37.25));
    assert_eq!(usage.secondary.as_ref().unwrap().window_minutes, Some(10_080));
    assert_eq!(usage.login_method.as_deref(), Some("Pro"));
    assert_eq!(usage.updated_at.secs, now.secs - 60);
}

#[test]
fn rejects_stale_future_partial_and_secret_bearing_cache() {
    let now = at("2026-08-29T11:55:00Z");
    assert!(usage_from_cache(&apps_cache(now.secs - MAX_CACHE_AGE_SECONDS - 1), now).is_err());
    assert!(usage_from_cache(&apps_cache(now.secs + CLOCK_SKEW_SECONDS + 1), now).is_err());

    let partial = edited(apps_cache(now.secs), |v| {
        v["payload"].as_object_mut().unwrap().remove("weekly");
    });
    assert!(usage_from_cache(&partial, now).is_err());

    let secret = edited(apps_cache(now.secs), |v| v["payload"]["token"] = Value::from("must-not-cross-boundary"));
    assert!(usage_from_cache(&secret, now).is_err());
}

#[test]
fn expired_windows_are_unavailable() {
    let later = at("2026-08-29T12:00:00Z");
    let usage = usage_from_cache(&apps_cache(later.secs - 600), later).unwrap();
    assert!(usage.primary.is_informational);
    assert_eq!(usage.primary.reset_description, None);
    assert_eq!(usage.primary.window_minutes, Some(300));
    assert!(!usage.secondary.unwrap().is_informational);
    let last = at("2026-09-03T12:00:00Z");
    let error = usage_from_cache(&apps_cache(last.secs - 600), last).unwrap_err();
    assert!(text(error).starts_with("Both Gemini Apps usage windows have reset"));
}

#[test]
fn gemini_apps_caches_say_what_is_wrong() {
    let now = at("2026-08-29T11:55:00Z");
    let error = |edit: fn(&mut Value)| text(usage_from_cache(&edited(apps_cache(now.secs), edit), now).unwrap_err());
    assert!(text(usage_from_cache("{", now).unwrap_err()).starts_with("Invalid Gemini Apps cache: EOF"));
    assert!(text(usage_from_cache("{}", now).unwrap_err()).starts_with("Invalid Gemini Apps cache: "));
    assert_eq!(
        error(|v| v["version"] = Value::from(2)),
        "Unsupported Gemini Apps Browser Bridge cache version/provider"
    );
    assert_eq!(
        error(|v| v["payload"]["account_id"] = Value::from("x")),
        "Invalid Gemini Apps account slot in Browser Bridge cache"
    );
    assert_eq!(
        error(|v| v["payload"]["source"] = Value::from("x")),
        "Unknown Gemini Apps Browser Bridge parser source"
    );
    assert_eq!(
        error(|v| v["payload"]["plan"] = Value::from("")),
        "Invalid Gemini Apps plan label in Browser Bridge cache"
    );
    assert_eq!(error(|v| v["observed_at"] = Value::from(i64::MAX)), "Invalid Gemini Apps observation timestamp");
    assert_eq!(
        text(usage_from_cache(&apps_cache(now.secs - 86_401), now).unwrap_err()),
        "Gemini Apps Browser Bridge snapshot is stale (86401s old). Keep a signed-in Gemini tab open so the background bridge can refresh it."
    );
    assert_eq!(
        text(usage_from_cache(&apps_cache(now.secs + 61), now).unwrap_err()),
        "Gemini Apps Browser Bridge snapshot is from the future; check the system clock."
    );
    assert_eq!(
        error(|v| v["payload"]["current"]["label"] = Value::from("x")),
        "Unexpected Gemini Apps meter label: x"
    );
    assert_eq!(
        error(|v| v["payload"]["weekly"]["used_percent"] = Value::from(100.5)),
        "Invalid Gemini Apps percentage for Weekly limit"
    );
    assert!(error(|v| v["payload"]["weekly"]["resets_at"] = Value::from("x"))
        .starts_with("Invalid Gemini Apps reset timestamp: "));
    assert_eq!(fetch_from_cache(&apps_cache(now.secs), now).unwrap().source_label, "browser-bridge");
}

#[test]
fn metadata_and_sources_are_browser_bridge_specific() {
    let provider = GeminiAppsProvider::new();
    assert_eq!(provider.id(), ProviderId::GeminiApps);
    assert_eq!(provider.metadata().display_name, "Gemini Apps");
    assert_eq!(provider.metadata().session_label, "Current usage");
    assert_eq!(provider.metadata().weekly_label, "Weekly limit");
    assert!(!provider.metadata().default_enabled);
    assert_eq!(provider.metadata().dashboard_url, Some("https://gemini.google.com/usage"));
    assert_eq!(provider.available_sources(), vec![SourceMode::Auto, SourceMode::Web]);
    assert!(provider.supports_web());
    assert!(provider.check_source(SourceMode::Auto).is_ok());
    assert!(matches!(
        provider.check_source(SourceMode::Cli),
        Err(ProviderError::UnsupportedSource(SourceMode::Cli))
    ));
}

#[test]
fn stable_cache_name_precedes_legacy_poc_name() {
    let root = std::path::Path::new("C:/cache");
    assert_eq!(root.join(cache_filename(0)), root.join(STABLE_CACHE_FILENAME));
    assert_eq!(root.join(cache_filename(1)), root.join(LEGACY_POC_CACHE_FILENAME));
    assert!(matches!(after_read(0, "p", ReadOutcome::Missing), ReadStep::TryNext));
    assert!(matches!(after_read(1, "p", ReadOutcome::Missing), ReadStep::Fail(ProviderError::NotInstalled(_))));
    assert!(matches!(after_read(1, "p", ReadOutcome::Found("x".to_string())), ReadStep::Use(_)));
    match after_read(0, "p", ReadOutcome::Failed("denied".to_string())) {
        ReadStep::Fail(error) => {
            assert_eq!(text(error), "Failed to read Gemini Apps Browser Bridge cache p: denied")
        }
        _ => panic!("a failed read must fail"),
    }
}

#[test]
fn converts_spend_cache_to_cost_without_inventing_quota() {
    let now = at("2026-09-03T06:00:00Z");
    let result = result_from_cache(&spend_cache(now.secs - 30), now).unwrap();
    assert!(result.usage.primary.is_informational);
    assert_eq!(result.usage.primary.used_percent, b(0.0));
    let cost = result.cost.unwrap();
    assert_eq!(cost.used, b(12.34));
    assert_eq!(cost.limit, Some(b(50.0)));
    assert_eq!(cost.currency_code, "USD");
    assert_eq!(cost.period, "Current month");
}

#[test]
fn the_cap_pair_drives_the_percentage() {
    let now = at("2026-09-03T06:00:00Z");
    let capped = edited(spend_cache(now.secs), |v| v["payload"]["cap_used"] = Value::from(12.5));
    let result = result_from_cache(&capped, now).unwrap();
    assert!(!result.usage.primary.is_informational);
    assert_eq!(result.usage.primary.used_percent, b(25.0));
    assert_eq!(result.usage.primary.resets_at, Some(at("2026-10-01T00:00:00Z")));
    assert_eq!(result.cost.unwrap().used, b(12.34));
    let over = edited(capped, |v| v["payload"]["cap_used"] = Value::from(900));
    assert_eq!(result_from_cache(&over, now).unwrap().usage.primary.used_percent, b(100.0));
    let no_cap = edited(spend_cache(now.secs), |v| v["payload"]["limit"] = Value::Null);
    assert!(result_from_cache(&no_cap, now).unwrap().usage.primary.is_informational);
}

#[test]
fn rejects_partial_unknown_or_secret_bearing_cache() {
    let now = at("2026-09-03T06:00:00Z");
    let refused = |edit: fn(&mut Value)| result_from_cache(&edited(spend_cache(now.secs), edit), now).is_err();
    assert!(refused(|v| {
        v["payload"].as_object_mut().unwrap().remove("used");
    }));
    assert!(refused(|v| v["payload"]["billing_account_id"] = Value::from("secret-id")));
    assert!(refused(|v| v["payload"]["source"] = Value::from("network")));
    assert!(refused(|v| v["payload"]["currency"] = Value::from("ABC")));
    assert!(refused(|v| v["payload"]["scope"] = Value::from("person@example.com")));
}

#[test]
fn gemini_api_caches_say_what_is_wrong() {
    let now = at("2026-09-03T06:00:00Z");
    let error = |edit: fn(&mut Value)| text(result_from_cache(&edited(spend_cache(now.secs), edit), now).unwrap_err());
    assert!(text(result_from_cache("", now).unwrap_err()).starts_with("Invalid Gemini API cache: EOF"));
    assert_eq!(
        error(|v| v["provider"] = Value::from("gemini-apps")),
        "Unsupported Gemini API Browser Bridge cache version/provider"
    );
    assert_eq!(error(|v| v["observed_at"] = Value::from(i64::MIN)), "Invalid Gemini API observation timestamp");
    assert_eq!(
        text(result_from_cache(&spend_cache(now.secs - 90_000), now).unwrap_err()),
        "Gemini API Browser Bridge snapshot is stale (90000s old). Keep a signed-in AI Studio Spend tab open so the bridge can refresh it."
    );
    assert!(text(result_from_cache(&spend_cache(now.secs + 90), now).unwrap_err()).contains("from the future"));
    assert_eq!(error(|v| v["payload"]["used"] = Value::from(-1)), "Invalid Gemini API spend amount");
    assert_eq!(error(|v| v["payload"]["limit"] = Value::from(-1)), "Invalid Gemini API spend limit");
    assert_eq!(error(|v| v["payload"]["cap_used"] = Value::from(-1)), "Invalid Gemini API capped amount");
    assert_eq!(error(|v| v["payload"]["currency"] = Value::from("ABC")), "Invalid Gemini API currency code");
    assert_eq!(error(|v| v["payload"]["period"] = Value::from("")), "Invalid Gemini API spend period");
    assert_eq!(error(|v| v["payload"]["scope"] = Value::from("")), "Invalid Gemini API scope label");
    assert_eq!(
        error(|v| v["payload"]["source"] = Value::from("x")),
        "Unknown Gemini API Browser Bridge parser source"
    );
    assert!(error(|v| v["payload"]["resets_at"] = Value::from("x"))
        .starts_with("Invalid Gemini API spend reset timestamp: "));
    let provider = GeminiApiProvider::default();
    assert_eq!(provider.id(), ProviderId::GeminiApi);
    assert_eq!(provider.metadata().status_page_url, Some("https://status.cloud.google.com"));
    assert!(matches!(geminiapi::after_read("p", ReadOutcome::Missing), Err(ProviderError::NotInstalled(_))));
    assert_eq!(geminiapi::after_read("p", ReadOutcome::Found("raw".to_string())).unwrap(), "raw");
}

#[test]
fn parses_only_sanitized_spend_payload_stdout() {
    let payload = parse_spend_stdout(
        br#"{"used":44.75,"cap_used":1054.0,"limit":2000.0,"currency":"JPY","period":"August 7 - September 3, 2026","resets_at":null,"scope":"Project Gemini Project","source":"dom"}
"#,
    )
    .unwrap();
    assert_eq!(payload.used, b(44.75));
    assert_eq!(payload.cap_used, Some(b(1054.0)));
    assert_eq!(payload.limit, Some(b(2000.0)));
    assert_eq!(payload.currency, "JPY");
    assert_eq!(payload.scope.as_deref(), Some("Project Gemini Project"));
    assert!(matches!(parse_spend_stdout(b"\xff\n{}\n"), Err(ProviderError::NoCookies)));
}

#[test]
fn cdp_capture_is_ascii_and_never_extracts_browser_auth_material() {
    assert!(AI_STUDIO_CDP_SPEND_SCRIPT.is_ascii());
    assert!(!AI_STUDIO_CDP_SPEND_SCRIPT.contains("document.cookie"));
    assert!(!AI_STUDIO_CDP_SPEND_SCRIPT.contains("localStorage"));
    assert!(!AI_STUDIO_CDP_SPEND_SCRIPT.contains("Authorization"));
    assert!(!AI_STUDIO_CDP_SPEND_SCRIPT.contains("Network.getResponseBody"));
    assert!(AI_STUDIO_CDP_SPEND_SCRIPT.contains("Runtime.evaluate"));
    assert!(AI_STUDIO_CDP_SPEND_SCRIPT.contains("DevToolsActivePort"));
    assert!(AI_STUDIO_CDP_SPEND_SCRIPT.contains("Get-NetTCPConnection"));
    assert!(AI_STUDIO_CDP_SPEND_SCRIPT.contains("document.body?.innerText"));
    assert!(AI_STUDIO_CDP_SPEND_SCRIPT.contains("\\u7dcf\\u8cbb\\u7528"));
    assert!(AI_STUDIO_CDP_SPEND_SCRIPT.contains("\\uffe5"));
}

#[test]
fn helpers_get_a_bounded_time() {
    assert_eq!(helper_timeout_ms(0, 2), 2_000);
    assert_eq!(helper_timeout_ms(7, 3), 7_000);
    assert_eq!(helper_timeout_ms(30, 3), 30_000);
    assert_eq!(helper_timeout_ms(u64::MAX, 2), 30_000);
}

#[test]
fn what_the_host_accepts_can_be_shown() {
    let now = at("2026-08-29T11:55:00Z");
    let raw = apps_cache(now.secs);
    assert!(codexbar::bridge::parse_push(raw.as_bytes()).is_ok());
    assert!(usage_from_cache(&raw, now).is_ok());
    let raw = edited(spend_cache(now.secs), |v| v["payload"]["cap_used"] = Value::from(60));
    assert!(codexbar::bridge::parse_push(raw.as_bytes()).is_ok());
    assert_eq!(result_from_cache(&raw, now).unwrap().usage.primary.used_percent, b(100.0));
}
