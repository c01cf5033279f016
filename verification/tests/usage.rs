use codexbar::binary64::Binary64;
use codexbar::cli::render::{
    format_percent, json_primary_pace_minutes, pace_json, primary_pace_minutes, render_brief_text, render_json_error,
    render_json_result, render_progress_bar, render_text, render_text_error, render_text_with_status,
    secondary_pace_minutes, text_output, PaceStage, PaceText, Readings, StatusInfo, StatusLevel, UsagePace,
};
use codexbar::cli::usage::{
    find_token_account, preferred_key, select_account, OutputFormat, ProviderAccountData, ProviderSelection,
    TokenAccount, UsageArgs, UsageCommand, UsageOutputFormat,
};
use codexbar::json::{parse_text, Json};
use codexbar::provider::{ProviderId, ProviderMetadata, SourceMode};
use codexbar::snapshot::{CostSnapshot, ProviderFetchResult, RateWindow, UsageSnapshot};
use codexbar::timestamp::Timestamp;

const NOW: Timestamp = Timestamp { secs: 1_788_000_000, nanos: 0 };

fn b(x: f64) -> Binary64 {
    Binary64 { bits: x.to_bits() }
}

fn fetch_result(usage: UsageSnapshot) -> ProviderFetchResult {
    ProviderFetchResult::new(usage, "test")
}

fn usage(percent: f64) -> UsageSnapshot {
    UsageSnapshot::new(RateWindow::new(b(percent)), NOW)
}

fn metadata(
    id: ProviderId,
    display_name: &'static str,
    session_label: &'static str,
    weekly_label: &'static str,
) -> ProviderMetadata {
    ProviderMetadata {
        id,
        display_name,
        session_label,
        weekly_label,
        supports_opus: false,
        supports_credits: false,
        default_enabled: false,
        is_primary: false,
        dashboard_url: None,
        status_page_url: None,
    }
}

#[test]
fn all_accounts_conflicts_with_explicit_account() {
    let args = UsageArgs {
        all_accounts: true,
        account: Some("work".to_string()),
        ..Default::default()
    };
    assert!(UsageCommand::from_args(args, false).is_err());
}

#[test]
fn usage_output_format_accepts_toon() {
    assert_eq!("toon".parse::<UsageOutputFormat>(), Ok(UsageOutputFormat::Toon));
    assert!("toon".parse::<OutputFormat>().is_err());
}

#[test]
fn formats_are_named_in_any_case() {
    assert_eq!("TEXT".parse::<OutputFormat>(), Ok(OutputFormat::Text));
    assert_eq!("Json".parse::<OutputFormat>(), Ok(OutputFormat::Json));
    assert_eq!(
        "xml".parse::<OutputFormat>(),
        Err("Invalid format: xml. Use 'text' or 'json'".to_string())
    );
    assert_eq!(
        "xml".parse::<UsageOutputFormat>(),
        Err("Invalid format: xml. Use 'text', 'json', or 'toon'".to_string())
    );
}

#[test]
fn openrouter_account_ref_resolves_labeled_key() {
    let data = ProviderAccountData {
        accounts: vec![
            TokenAccount { label: "Personal".to_string(), token: "sk-or-v1-personal".to_string() },
            TokenAccount { label: "Work".to_string(), token: "sk-or-v1-work".to_string() },
        ],
        active_index: 0,
    };

    let work = find_token_account(&data, "Work").unwrap();
    assert_eq!(work.token, "sk-or-v1-work");

    let by_index = find_token_account(&data, "2").unwrap();
    assert_eq!(by_index.token, "sk-or-v1-work");
}

#[test]
fn accounts_are_found_by_place_before_label() {
    let account = |label: &str| TokenAccount { label: label.to_string(), token: format!("t-{label}") };
    let mut data = ProviderAccountData { accounts: vec![account("2"), account("b"), account("B")], active_index: 1 };
    assert_eq!(find_token_account(&data, "2").unwrap().token, "t-b");
    assert_eq!(find_token_account(&data, "+1").unwrap().token, "t-2");
    assert_eq!(find_token_account(&data, "B").unwrap().token, "t-b");
    for missing in ["0", "4", "", "-1", "99999999999999999999999999"] {
        assert_eq!(
            find_token_account(&data, missing).unwrap_err(),
            format!("Account '{missing}' not found. Use 'codexbar account list <provider>' to see accounts.")
        );
    }
    assert_eq!(select_account(&data, None, "Codex").unwrap().token, "t-b");
    assert_eq!(select_account(&data, Some("3"), "Codex").unwrap().token, "t-B");
    data.active_index = 3;
    assert_eq!(select_account(&data, None, "Codex").unwrap_err(), "No active token account for Codex");
    assert_eq!(preferred_key(Some("a".to_string()), Some("s".to_string())), Some("a".to_string()));
    assert_eq!(preferred_key(None, Some("s".to_string())), Some("s".to_string()));
}

#[test]
fn text_rendering_shows_sub_one_percent_usage() {
    let result = fetch_result(usage(0.4));
    let output = render_text_with_status(
        &metadata(ProviderId::Codex, "Codex", "Session", "Weekly"),
        &result,
        &Readings::none(),
        &None,
        false,
    );
    assert!(output.contains("<1% used"));
}

// The provider is shown by its vendor's name; see `provider::cli_name_of`.
#[test]
fn brief_rendering_keeps_one_line_per_provider() {
    let result = fetch_result(
        usage(0.4).with_secondary(RateWindow::new(b(100.0))).with_login_method("Pro".to_string()),
    );
    let output = render_brief_text(
        &metadata(ProviderId::Claude, "Anthropic", "Session (5h)", "Weekly"),
        &result,
        &Readings::none(),
    );
    assert_eq!(output, "Anthropic: Session (5h) <1%, Weekly 100%, resets n/a, Pro");
}

#[test]
fn secondary_label_override_is_shared_by_full_and_brief_renderers() {
    let result = fetch_result(
        usage(10.0).with_secondary(RateWindow::new(b(20.0))).with_secondary_label("Weekly".to_string()),
    );
    let metadata = metadata(ProviderId::Antigravity, "Antigravity", "Models", "Gemini");
    let full = render_text_with_status(&metadata, &result, &Readings::none(), &None, false);
    let brief = render_brief_text(&metadata, &result, &Readings::none());
    assert!(full.contains("Weekly:"));
    assert!(brief.contains("Weekly 20%"));
}

#[test]
fn primary_label_override_is_shared_by_full_and_brief_renderers() {
    let result = fetch_result(usage(42.0).with_primary_label("Monthly".to_string()));
    let metadata = metadata(ProviderId::Grok, "Grok", "Credits", "Weekly");
    let full = render_text_with_status(&metadata, &result, &Readings::none(), &None, false);
    let brief = render_brief_text(&metadata, &result, &Readings::none());
    assert!(full.contains("Monthly:"));
    assert!(brief.contains("Grok: Monthly 42%"));
    assert!(!brief.contains("Credits 42%"));
}

#[test]
fn gemini_plan_preserves_acronym_casing() {
    let result = fetch_result(usage(0.0).with_login_method("Gemini Code Assist in Google One AI Pro".to_string()));
    let output = render_text(
        &metadata(ProviderId::Gemini, "Gemini", "Pro", "Flash"),
        &result,
        &Readings::none(),
        false,
    );
    assert!(output.contains("Plan:    Gemini Code Assist in Google One AI Pro"));
    assert!(!output.contains("Google One Ai Pro"));
}

#[test]
fn selections_follow_the_argument() {
    assert_eq!(ProviderSelection::from_arg(None), Ok(ProviderSelection::Single(ProviderId::Claude)));
    assert_eq!(ProviderSelection::from_arg(Some("ALL")), Ok(ProviderSelection::All));
    assert_eq!(ProviderSelection::from_arg(Some("both")).unwrap().as_list(), vec![ProviderId::Codex, ProviderId::Claude]);
    assert_eq!(ProviderSelection::from_arg(Some("Agy")).unwrap().as_list(), vec![ProviderId::Antigravity]);
    assert_eq!(ProviderSelection::All.as_list(), ProviderId::all());
    assert_eq!(
        ProviderSelection::from_arg(Some("Nope")),
        Err("Unknown provider: 'nope'. Use --help to see available providers.".to_string())
    );
}

#[test]
fn commands_follow_the_arguments() {
    let args = UsageArgs {
        provider: Some("both".to_string()),
        json: true,
        no_credits: true,
        status: true,
        source: "oauth".to_string(),
        web_timeout: 60,
        ..Default::default()
    };
    let command = UsageCommand::from_args(args, true).unwrap();
    assert_eq!(command.format, UsageOutputFormat::Json);
    assert_eq!(command.providers.len(), 2);
    assert!(command.use_color);
    assert!(command.fetch_status);
    assert_eq!(command.ctx.source_mode, SourceMode::OAuth);
    assert!(!command.ctx.include_credits);
    assert_eq!(command.ctx.web_timeout, 60);
    assert!(command.ctx.requires_optional_usage_completeness);

    let args = UsageArgs { no_color: true, source: "?".to_string(), ..Default::default() };
    let command = UsageCommand::from_args(args, true).unwrap();
    assert_eq!(command.format, UsageOutputFormat::Text);
    assert!(!command.use_color);
    assert_eq!(command.ctx.source_mode, SourceMode::Auto);

    let args = UsageArgs {
        provider: Some("all".to_string()),
        account: Some("work".to_string()),
        ..Default::default()
    };
    assert_eq!(
        UsageCommand::from_args(args, true).unwrap_err(),
        "--account requires a single --provider (not all/both)"
    );
}

#[test]
fn percentages_are_bounded() {
    for (x, text) in [
        (0.0, "0%"),
        (0.4, "<1%"),
        (1.0, "1%"),
        (49.5, "50%"),
        (50.5, "50%"),
        (99.6, "100%"),
        (250.0, "100%"),
        (-3.0, "0%"),
        (f64::NAN, "0%"),
        (f64::INFINITY, "0%"),
    ] {
        assert_eq!(format_percent(b(x)), text, "{x}");
    }
}

#[test]
fn bars_have_twenty_cells() {
    for (x, filled) in [
        (0.0, 0),
        (2.4, 0),
        (2.5, 1),
        (50.0, 10),
        (69.9, 14),
        (97.5, 20),
        (100.0, 20),
        (1e300, 20),
        (-5.0, 0),
        (f64::NAN, 0),
        (f64::INFINITY, 0),
    ] {
        let bar = format!("[{}{}]", "█".repeat(filled), "░".repeat(20 - filled));
        assert_eq!(render_progress_bar(b(x), false), bar, "{x}");
    }
    assert!(render_progress_bar(b(90.0), true).starts_with("\x1b[31m["));
    assert!(render_progress_bar(b(70.0), true).starts_with("\x1b[33m["));
    assert!(render_progress_bar(b(69.0), true).starts_with("\x1b[32m["));
    assert!(render_progress_bar(b(69.0), true).ends_with("]\x1b[0m"));
}

#[test]
fn a_full_result_is_rendered_line_by_line() {
    let usage = UsageSnapshot::new(
        RateWindow::with_details(b(50.0), Some(300), None, None),
        NOW,
    )
    .with_secondary(RateWindow::with_details(b(25.0), None, None, None))
    .with_tertiary(RateWindow::with_details(b(5.0), Some(43_200), None, None))
    .with_model_specific(RateWindow::new(b(75.0)))
    .with_email("me@example.com".to_string())
    .with_login_method("Pro".to_string())
    .with_extra_rate_window("x", "Extra", RateWindow::informational("2 left".to_string()));
    let result = fetch_result(usage)
        .with_cost(CostSnapshot::new(b(1.5), "USD", "Monthly", NOW).with_limit(b(20.0)));
    let mut readings = Readings::none();
    readings.primary.countdown = Some("2h".to_string());
    readings.primary.pace = Some(PaceText { emoji: "o".to_string(), status: "On track".to_string() });
    readings.secondary.pace = Some(PaceText { emoji: "x".to_string(), status: "Ahead".to_string() });
    readings.cost_used = "$1.50".to_string();
    readings.cost_limit = Some("$20.00".to_string());
    let status = Some(StatusInfo { level: StatusLevel::Degraded, description: "Slow".to_string() });
    let text = render_text_with_status(
        &metadata(ProviderId::Claude, "Anthropic", "Session", "Weekly"),
        &result,
        &readings,
        &status,
        false,
    );
    let bar = |n: usize| format!("[{}{}]", "█".repeat(n), "░".repeat(20 - n));
    assert_eq!(
        text,
        [
            "Anthropic (test) ◐".to_string(),
            "  Status: Slow".to_string(),
            "  Account: me@example.com".to_string(),
            "  Plan:    Pro".to_string(),
            format!("  Session: {} 50% used (resets in 2h)", bar(10)),
            "  Pace:    o On track".to_string(),
            format!("  Weekly:  {} 25% used", bar(5)),
            "  Pace:    x Ahead".to_string(),
            format!("  Opus:    {} 75% used", bar(15)),
            format!("  Monthly: {} 5% used", bar(1)),
            "  Extra:   2 left".to_string(),
            "  Cost:    $1.50 / $20.00 (Monthly)".to_string(),
        ]
        .join("\n")
    );
    assert!(render_text(&metadata(ProviderId::Claude, "Anthropic", "S", "W"), &result, &readings, true)
        .starts_with("\x1b[1mAnthropic\x1b[0m (test)\n"));
}

#[test]
fn an_informational_lane_gives_its_countdown_away() {
    let result = fetch_result(
        UsageSnapshot::new(RateWindow::no_active_session(), NOW).with_secondary(RateWindow::new(b(30.0))),
    );
    let mut readings = Readings::none();
    readings.primary.countdown = Some("1h".to_string());
    readings.secondary.countdown = Some("3d".to_string());
    let metadata = metadata(ProviderId::Codex, "Codex", "Session", "Weekly");
    assert_eq!(
        render_brief_text(&metadata, &result, &readings),
        "Codex: Session unavailable, Weekly 30%, resets 3d"
    );
}

#[test]
fn pace_is_taken_by_length() {
    let window = |minutes| UsageSnapshot::new(RateWindow::with_details(b(1.0), minutes, None, None), NOW);
    assert_eq!(primary_pace_minutes(&window(Some(300))), Some(300));
    assert_eq!(primary_pace_minutes(&window(Some(10_080))), Some(10_080));
    assert_eq!(primary_pace_minutes(&window(Some(43_200))), Some(43_200));
    assert_eq!(primary_pace_minutes(&window(Some(1_440))), None);
    assert_eq!(primary_pace_minutes(&window(None)), None);
    assert_eq!(json_primary_pace_minutes(&window(Some(300))), Some(300));
    assert_eq!(json_primary_pace_minutes(&window(Some(10_080))), None);
    assert_eq!(secondary_pace_minutes(&window(None)), None);
    assert_eq!(secondary_pace_minutes(&window(None).with_secondary(RateWindow::new(b(1.0)))), Some(10_080));
}

#[test]
fn results_are_written_as_json() {
    let pace = UsagePace {
        stage: PaceStage::SlightlyAhead,
        delta_percent: b(1.5),
        expected_used_percent: b(f64::NAN),
        will_last_to_reset: true,
    };
    let json = pace_json(pace);
    assert_eq!(json.get("stage").and_then(Json::as_str), Some("slightlyahead"));
    assert_eq!(json.get("deltaPercent").and_then(Json::as_double), Some(b(1.5)));
    assert!(json.get("expectedUsedPercent").unwrap().is_null());
    let status = Some(StatusInfo { level: StatusLevel::Major, description: "Down".to_string() });
    let value = |s: &str| parse_text(s).unwrap();
    let json = render_json_result(ProviderId::GeminiApi, "api", value("{}"), value("null"), Some(pace), None, &status);
    assert_eq!(json.get("provider").and_then(Json::as_str), Some("gemini-api"));
    assert!(json.get("pace").unwrap().get("secondary").unwrap().is_null());
    assert_eq!(json.get("status").unwrap().get("level").and_then(Json::as_str), Some("major"));
    let json = render_json_result(ProviderId::Codex, "api", value("{}"), value("null"), None, None, &None);
    assert!(json.get("pace").is_none());
    assert!(json.get("status").is_none());
    let json = render_json_error(ProviderId::Codex, "no");
    assert_eq!(json.get("error").and_then(Json::as_str), Some("no"));
    assert_eq!(render_text_error("Codex", "no", false), "Codex  Error: no");
    assert_eq!(text_output(&vec!["a".to_string(), "b".to_string()]), "a\n\nb");
}
